//! A view of one entry of the local process table.
//!
//! A worker only ever needs to know whether its benchmark subprocess is
//! alive, a zombie, or gone; and to send it a kill signal. Both reads of
//! the process table depend on the machine's state at the moment of the
//! call, so nothing is promised about which answer comes back — the
//! callers state what they do for every answer.

use vstd::prelude::*;

verus! {

/// What the process table says about one process id.
#[derive(Clone, Copy, Debug, PartialEq, Eq, Structural)]
pub enum ProcessView {
    /// The process exists and is not defunct.
    Alive,
    /// The process exists but is defunct, waiting to be reaped.
    Zombie,
    /// No process with that id exists.
    Absent,
}

/// Relies on `sysinfo::System::{new_all, process}` and
/// `sysinfo::Process::status`: reads the process table entry for `pid`.
/// The answer depends on the machine at the moment of the call, so nothing
/// is promised of it.
#[verifier::external_body]
pub fn probe_process(pid: u32) -> (r: ProcessView) {
    let system = sysinfo::System::new_all();
    match system.process(sysinfo::Pid::from_u32(pid)) {
        Some(process) => match process.status() {
            sysinfo::ProcessStatus::Zombie => ProcessView::Zombie,
            _ => ProcessView::Alive,
        },
        None => ProcessView::Absent,
    }
}

/// Relies on `sysinfo::System::{new_all, refresh_processes, process}` and
/// `sysinfo::Process::kill`: refreshes the entry for `pid` and sends the
/// process a kill signal if it is still there. Returns whether a signal
/// was sent; the answer depends on the machine, so nothing is promised of
/// it.
#[verifier::external_body]
pub fn kill_process(pid: u32) -> (r: bool) {
    let mut system = sysinfo::System::new_all();
    let pid = sysinfo::Pid::from_u32(pid);
    let refreshed = system.refresh_processes(
        sysinfo::ProcessesToUpdate::Some(&[pid]),
        true,
    );
    if refreshed == 0 {
        return false;
    }
    match system.process(pid) {
        Some(process) => process.kill(),
        None => false,
    }
}

} // verus!
