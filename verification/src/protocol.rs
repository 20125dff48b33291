//! The workflow engine's decision surface.
//!
//! A workflow instance is a state machine plus the peer state it last
//! observed and its event counters. The engine drives every instance
//! through one loop: run the action of the current state, consume peer
//! messages, and advance on self- or user-driven transitions. All I/O —
//! sockets, sleeps, subprocesses — happens outside; this trait fixes what
//! each step decides.

use crate::error::RussulaError;
use crate::event::EventRecorder;
use crate::network_utils::Msg;
use crate::states::{StateApi, WorkflowState};
use vstd::prelude::*;

verus! {

/// How often the terminal state is sent to the peer, in case of loss.
pub const DONE_SENT_COUNT: u64 = 3;

/// The pause between repeated sends of the terminal state, in seconds.
pub const NOTIFY_DONE_TIMEOUT_SECS: u64 = 1;

/// What one poll of an instance reports.
#[derive(Clone, Copy, Debug, PartialEq, Eq, Structural)]
pub enum PollResult {
    /// The instance is at the polled state.
    Ready,
    /// The instance is not there yet; poll again later.
    Pending,
}

impl PollResult {
    /// True when the poll reported ready.
    pub fn is_ready(&self) -> (r: bool)
        ensures
            r == (self is Ready),
    {
        matches!(self, PollResult::Ready)
    }

    /// True when the poll reported pending.
    pub fn is_pending(&self) -> (r: bool)
        ensures
            r == (self is Pending),
    {
        matches!(self, PollResult::Pending)
    }
}

/// The side effect the current state asks for: what the embedding loop
/// must do before the instance can advance.
#[derive(Clone, Copy, Debug, PartialEq, Eq, Structural)]
pub enum RunAction {
    /// Wait for a peer message and feed it back in.
    AwaitMsg,
    /// Send the current state to the peer, then wait for a peer message.
    NotifyAndAwaitMsg,
    /// Advance to the next state and send it to the peer.
    Advance,
    /// Spawn the benchmark subprocess and report its process id back.
    SpawnProcess,
    /// Kill the benchmark subprocess, then advance.
    KillProcess,
    /// Send the current state, then check on the subprocess and advance
    /// once it is gone.
    ProbeProcess,
    /// Send the current state to the peer; the machine is finished.
    NotifyFinished,
}

/// One workflow instance: a role's state machine, the peer state it last
/// observed, and its event counters.
pub trait Protocol: Sized {
    /// This role's state enumeration.
    type State: StateApi;

    /// The peer role's state enumeration.
    type Peer: StateApi;

    /// The current state.
    spec fn state_spec(&self) -> Self::State;

    /// The peer state this instance last observed.
    spec fn peer_state_spec(&self) -> Self::Peer;

    /// The event counters.
    spec fn recorder_spec(&self) -> EventRecorder;

    /// True of the coordinator roles, which initiate connections and may
    /// poll for the worker-running state; false of workers.
    spec fn is_coordinator() -> bool;

    /// The state a polled target stands for in this role.
    spec fn target_spec(t: WorkflowState) -> Self::State;

    /// The side effect the given state asks for.
    spec fn action_spec(s: Self::State) -> RunAction;

    /// The current state.
    fn state(&self) -> (r: &Self::State)
        ensures
            *r == self.state_spec(),
    ;

    /// A short name for this instance, for logs.
    fn name(&self) -> String;

    /// Whether this instance is at the polled target state. Only
    /// coordinators may poll for the worker-running state.
    fn is_state(&self, t: WorkflowState) -> (r: bool)
        requires
            t is WorkerRunning ==> Self::is_coordinator(),
        ensures
            r == (self.state_spec().serial_spec() == Self::target_spec(t).serial_spec()),
    ;

    /// The side effect the current state asks for.
    fn run_action(&self) -> (r: RunAction)
        ensures
            r == Self::action_spec(self.state_spec()),
    ;

    /// Consume one peer message: record it, remember the peer's state, and
    /// advance when the message is exactly what the current state waits
    /// for. Returns whether the instance advanced; a message that is no
    /// state of the peer's role fails with `BadMsg`.
    fn on_msg(&mut self, msg: &Msg) -> (r: Result<bool, RussulaError>)
        requires
            old(self).state_spec().is_await_next(),
        ensures
            r is Ok <==> Self::Peer::parse_spec(msg.payload()) is Some,
            r matches Err(e) ==> e is BadMsg,
            r matches Ok(t) ==> t == (msg.payload() == old(self).state_spec().expected_msg()),
            r matches Ok(t) ==> final(self).peer_state_spec() == Self::Peer::parse_spec(
                msg.payload(),
            )->Some_0,
            r matches Ok(t) ==> final(self).state_spec() == if t {
                old(self).state_spec().next_spec()
            } else {
                old(self).state_spec()
            },
            r is Err ==> final(self).state_spec() == old(self).state_spec(),
            r is Err ==> final(self).peer_state_spec() == old(self).peer_state_spec(),
            final(self).recorder_spec().received() == crate::event::bumped(
                old(self).recorder_spec().received(),
            ),
            final(self).recorder_spec().sent() == old(self).recorder_spec().sent(),
    ;

    /// Advance a self- or user-driven state to its next state.
    fn advance(&mut self)
        requires
            old(self).state_spec().is_self_driven() || old(self).state_spec().is_user_driven(),
        ensures
            final(self).state_spec() == old(self).state_spec().next_spec(),
            final(self).peer_state_spec() == old(self).peer_state_spec(),
            final(self).recorder_spec() == old(self).recorder_spec(),
    ;

    /// The frame that tells the peer this instance's current state.
    fn notify_frame(&self) -> (r: Vec<u8>)
        ensures
            r@ == crate::network_utils::frame_spec(self.state_spec().serial_spec()),
    ;

    /// Count one sent message, once the embedding loop has written a frame.
    fn record_sent(&mut self)
        ensures
            final(self).state_spec() == old(self).state_spec(),
            final(self).peer_state_spec() == old(self).peer_state_spec(),
            final(self).recorder_spec().sent() == crate::event::bumped(
                old(self).recorder_spec().sent(),
            ),
            final(self).recorder_spec().received() == old(self).recorder_spec().received(),
    ;
}

} // verus!
