//! The client worker's state machine.
//!
//! It waits for a coordinator, starts the benchmark client subprocess on
//! request, and watches the process table until the subprocess finishes on
//! its own — or turns into a zombie, which counts as finished. States that
//! carry the subprocess id keep it local: the id never travels.

use crate::error::RussulaError;
use crate::event::{EventRecorder, EventType};
use crate::netbench::client_coord::CoordState;
use crate::digits::{dec_chars, u64_to_dec};
use crate::netbench::{CommandSpec, ClientContext};
use crate::network_utils::{construct_payload, Msg};
use crate::process_monitor::{probe_process, ProcessView};
use crate::protocol::{Protocol, RunAction};
use crate::states::{StateApi, TransitionStep, WorkflowState};
use crate::wire::{bytes_eq, lemma_quoted_bytes_utf8, quoted_bytes, quoted_bytes_of};
use vstd::pervasive::arbitrary;
use vstd::prelude::*;
use vstd::string::StringExecFns;

verus! {

/// A stand-in process id, used only when a state variant is built for
/// comparison rather than from a spawned subprocess.
pub const PLACEHOLDER_PID: u32 = 1000;

/// The client worker's states, in the order they are traversed. The
/// payload of `Running` and `RunningAwaitComplete` is the local subprocess
/// id.
#[derive(Clone, Copy, Debug, PartialEq, Eq, Structural)]
pub enum WorkerState {
    WaitCoordInit,
    Ready,
    Run,
    Running(u32),
    RunningAwaitComplete(u32),
    Stopped,
    Done,
}

impl WorkerState {
    /// This state with its local process id zeroed: what remains of it on
    /// the wire.
    pub open spec fn canon(self) -> WorkerState {
        match self {
            WorkerState::Running(_) => WorkerState::Running(0),
            WorkerState::RunningAwaitComplete(_) => WorkerState::RunningAwaitComplete(0),
            _ => self,
        }
    }

    /// The characters of this state's name.
    pub open spec fn name(self) -> Seq<char> {
        match self {
            WorkerState::WaitCoordInit => "WaitCoordInit"@,
            WorkerState::Ready => "Ready"@,
            WorkerState::Run => "Run"@,
            WorkerState::Running(_) => "Running"@,
            WorkerState::RunningAwaitComplete(_) => "RunningAwaitComplete"@,
            WorkerState::Stopped => "Stopped"@,
            WorkerState::Done => "Done"@,
        }
    }

    /// The serialized bytes of this state: its quoted name.
    pub open spec fn serial(self) -> Seq<u8> {
        quoted_bytes(self.name())
    }

    /// Serialize this state for the wire.
    pub fn to_bytes(&self) -> (r: Vec<u8>)
        ensures
            r@ == self.serial(),
    {
        proof {
            reveal_strlit("WaitCoordInit");
            reveal_strlit("Ready");
            reveal_strlit("Run");
            reveal_strlit("Running");
            reveal_strlit("RunningAwaitComplete");
            reveal_strlit("Stopped");
            reveal_strlit("Done");
        }
        match self {
            WorkerState::WaitCoordInit => quoted_bytes_of("WaitCoordInit"),
            WorkerState::Ready => quoted_bytes_of("Ready"),
            WorkerState::Run => quoted_bytes_of("Run"),
            WorkerState::Running(_) => quoted_bytes_of("Running"),
            WorkerState::RunningAwaitComplete(_) => quoted_bytes_of("RunningAwaitComplete"),
            WorkerState::Stopped => quoted_bytes_of("Stopped"),
            WorkerState::Done => quoted_bytes_of("Done"),
        }
    }
}

impl StateApi for WorkerState {
    open spec fn name_chars(&self) -> Seq<char> {
        self.name()
    }

    open spec fn serial_spec(&self) -> Seq<u8> {
        self.serial()
    }

    open spec fn is_await_next(&self) -> bool {
        self is WaitCoordInit || self is Ready || self is Running || self is Stopped
    }

    open spec fn expected_msg(&self) -> Seq<u8> {
        match self {
            WorkerState::WaitCoordInit => CoordState::CheckWorker.serial(),
            WorkerState::Ready => CoordState::RunWorker.serial(),
            WorkerState::Running(_) => CoordState::WorkersRunning.serial(),
            WorkerState::Stopped => CoordState::Done.serial(),
            _ => Seq::empty(),
        }
    }

    open spec fn is_self_driven(&self) -> bool {
        self is Run || self is RunningAwaitComplete
    }

    open spec fn is_user_driven(&self) -> bool {
        false
    }

    open spec fn is_finished(&self) -> bool {
        self is Done
    }

    open spec fn next_spec(&self) -> WorkerState {
        match self {
            WorkerState::WaitCoordInit => WorkerState::Ready,
            WorkerState::Ready => WorkerState::Run,
            WorkerState::Run => WorkerState::Running(PLACEHOLDER_PID),
            WorkerState::Running(pid) => WorkerState::RunningAwaitComplete(*pid),
            WorkerState::RunningAwaitComplete(_) => WorkerState::Stopped,
            WorkerState::Stopped => WorkerState::Done,
            WorkerState::Done => WorkerState::Done,
        }
    }

    open spec fn parse_spec(b: Seq<u8>) -> Option<WorkerState> {
        if b == WorkerState::WaitCoordInit.serial() {
            Some(WorkerState::WaitCoordInit)
        } else if b == WorkerState::Ready.serial() {
            Some(WorkerState::Ready)
        } else if b == WorkerState::Run.serial() {
            Some(WorkerState::Run)
        } else if b == WorkerState::Running(0).serial() {
            Some(WorkerState::Running(0))
        } else if b == WorkerState::RunningAwaitComplete(0).serial() {
            Some(WorkerState::RunningAwaitComplete(0))
        } else if b == WorkerState::Stopped.serial() {
            Some(WorkerState::Stopped)
        } else if b == WorkerState::Done.serial() {
            Some(WorkerState::Done)
        } else {
            None
        }
    }

    fn transition_step(&self) -> (r: TransitionStep) {
        match self {
            WorkerState::WaitCoordInit => TransitionStep::AwaitNext(
                CoordState::CheckWorker.to_bytes(),
            ),
            WorkerState::Ready => TransitionStep::AwaitNext(CoordState::RunWorker.to_bytes()),
            WorkerState::Run => TransitionStep::SelfDriven,
            WorkerState::Running(_) => TransitionStep::AwaitNext(
                CoordState::WorkersRunning.to_bytes(),
            ),
            WorkerState::RunningAwaitComplete(_) => TransitionStep::SelfDriven,
            WorkerState::Stopped => TransitionStep::AwaitNext(CoordState::Done.to_bytes()),
            WorkerState::Done => TransitionStep::Finished,
        }
    }

    fn next_state(&self) -> (r: WorkerState) {
        match self {
            WorkerState::WaitCoordInit => WorkerState::Ready,
            WorkerState::Ready => WorkerState::Run,
            WorkerState::Run => WorkerState::Running(PLACEHOLDER_PID),
            WorkerState::Running(pid) => WorkerState::RunningAwaitComplete(*pid),
            WorkerState::RunningAwaitComplete(_) => WorkerState::Stopped,
            WorkerState::Stopped => WorkerState::Done,
            WorkerState::Done => WorkerState::Done,
        }
    }

    fn as_bytes(&self) -> (r: Vec<u8>) {
        self.to_bytes()
    }

    fn eq(&self, other: &WorkerState) -> (r: bool) {
        let a = self.as_bytes();
        let b = other.as_bytes();
        bytes_eq(a.as_slice(), b.as_slice())
    }

    fn from_msg(msg: &Msg) -> (r: Result<WorkerState, RussulaError>) {
        let b = msg.as_bytes();
        let c0 = WorkerState::WaitCoordInit.to_bytes();
        if bytes_eq(b, c0.as_slice()) {
            return Ok(WorkerState::WaitCoordInit);
        }
        let c1 = WorkerState::Ready.to_bytes();
        if bytes_eq(b, c1.as_slice()) {
            return Ok(WorkerState::Ready);
        }
        let c2 = WorkerState::Run.to_bytes();
        if bytes_eq(b, c2.as_slice()) {
            return Ok(WorkerState::Run);
        }
        let c3 = WorkerState::Running(0).to_bytes();
        if bytes_eq(b, c3.as_slice()) {
            return Ok(WorkerState::Running(0));
        }
        let c4 = WorkerState::RunningAwaitComplete(0).to_bytes();
        if bytes_eq(b, c4.as_slice()) {
            return Ok(WorkerState::RunningAwaitComplete(0));
        }
        let c5 = WorkerState::Stopped.to_bytes();
        if bytes_eq(b, c5.as_slice()) {
            return Ok(WorkerState::Stopped);
        }
        let c6 = WorkerState::Done.to_bytes();
        if bytes_eq(b, c6.as_slice()) {
            return Ok(WorkerState::Done);
        }
        Err(RussulaError::BadMsg { dbg: String::from_str("not a client worker state") })
    }
}


/// The worker's workflow instance for the client role: it owns the
/// benchmark client subprocess and watches it finish.
#[derive(Clone)]
pub struct WorkerProtocol {
    id: String,
    state: WorkerState,
    peer_state: CoordState,
    netbench_ctx: ClientContext,
    event_recorder: EventRecorder,
}

impl WorkerProtocol {
    /// The identifier this worker logs under.
    pub closed spec fn id_chars(&self) -> Seq<char> {
        self.id@
    }

    /// The context the benchmark subprocess is started with.
    pub closed spec fn ctx_spec(&self) -> ClientContext {
        self.netbench_ctx
    }

    /// A fresh worker, waiting for its coordinator.
    pub fn new(id: String, netbench_ctx: ClientContext) -> (r: WorkerProtocol)
        ensures
            r.state_spec() == WorkerState::WaitCoordInit,
            r.peer_state_spec() == CoordState::CheckWorker,
            r.recorder_spec().sent() == 0,
            r.recorder_spec().received() == 0,
            r.id_chars() == id@,
            r.ctx_spec() == netbench_ctx,
    {
        WorkerProtocol {
            id,
            state: WorkerState::WaitCoordInit,
            peer_state: CoordState::CheckWorker,
            netbench_ctx,
            event_recorder: EventRecorder::new(),
        }
    }

    /// The peer state this worker last observed.
    pub fn peer_state(&self) -> (r: &CoordState)
        ensures
            *r == self.peer_state_spec(),
    {
        &self.peer_state
    }

    /// The event counters.
    pub fn event_recorder(&self) -> (r: &EventRecorder)
        ensures
            *r == self.recorder_spec(),
    {
        &self.event_recorder
    }

    /// The context the benchmark subprocess is started with.
    pub fn context(&self) -> &ClientContext {
        &self.netbench_ctx
    }

    /// The invocation of the benchmark client subprocess: the collector
    /// runs the driver against the scenario, with one environment entry
    /// per benchmark server to connect to, and output captured to this
    /// worker's log. In testing mode a stub script stands in for the
    /// benchmark.
    pub fn run_command(&self) -> (r: CommandSpec)
        ensures
            !self.ctx_spec().testing ==> r.program@ == self.ctx_spec().netbench_path@
                + "/s2n-netbench-collector"@,
            !self.ctx_spec().testing ==> r.args@.len() == 3 && r.args@[0]@
                == self.ctx_spec().netbench_path@ + "/"@ + self.ctx_spec().driver@ && r.args@[1]@
                == "--scenario"@ && r.args@[2]@ == self.ctx_spec().netbench_path@ + "/"@
                + self.ctx_spec().scenario@,
            !self.ctx_spec().testing ==> r.env@.len() == self.ctx_spec().netbench_servers@.len()
                && (forall|i: int|
                0 <= i < r.env@.len() ==> (#[trigger] r.env@[i]).0@ == "SERVER_"@ + dec_chars(i)
                    && r.env@[i].1@ == self.ctx_spec().netbench_servers@[i]@),
            !self.ctx_spec().testing ==> (r.stdout_file matches Some(f) && f@ == "client-w-"@
                + self.id_chars() + ".json"@),
            self.ctx_spec().testing ==> r.program@ == "sh"@ && r.args@.len() == 2 && r.args@[0]@
                == "scripts/sim_netbench_client.sh"@ && r.args@[1]@ == "client-w-"@
                + self.id_chars() && r.env@.len() == 0 && r.stdout_file is None,
    {
        let name = String::from_str("client-w-").concat(self.id.as_str());
        if self.netbench_ctx.testing {
            let mut args: Vec<String> = Vec::new();
            args.push(String::from_str("scripts/sim_netbench_client.sh"));
            args.push(name);
            CommandSpec {
                program: String::from_str("sh"),
                args,
                env: Vec::new(),
                stdout_file: None,
            }
        } else {
            let program = self.netbench_ctx.netbench_path.clone().concat(
                "/s2n-netbench-collector",
            );
            let mut args: Vec<String> = Vec::new();
            args.push(
                self.netbench_ctx.netbench_path.clone().concat("/").concat(
                    self.netbench_ctx.driver.as_str(),
                ),
            );
            args.push(String::from_str("--scenario"));
            args.push(
                self.netbench_ctx.netbench_path.clone().concat("/").concat(
                    self.netbench_ctx.scenario.as_str(),
                ),
            );
            let mut env: Vec<(String, String)> = Vec::new();
            let n = self.netbench_ctx.netbench_servers.len();
            let mut i: usize = 0;
            while i < n
                invariant
                    0 <= i <= n,
                    n == self.netbench_ctx.netbench_servers@.len(),
                    env@.len() == i,
                    forall|j: int|
                        0 <= j < i ==> (#[trigger] env@[j]).0@ == "SERVER_"@ + dec_chars(j)
                            && env@[j].1@ == self.netbench_ctx.netbench_servers@[j]@,
                decreases n - i,
            {
                let key = String::from_str("SERVER_").concat(u64_to_dec(i as u64).as_str());
                env.push((key, self.netbench_ctx.netbench_servers[i].clone()));
                i += 1;
            }
            CommandSpec {
                program,
                args,
                env,
                stdout_file: Some(name.concat(".json")),
            }
        }
    }

    /// Record the benchmark subprocess the embedding loop has spawned: the
    /// worker now runs, awaiting the coordinator's view of the fleet.
    pub fn start_run(&mut self, pid: u32)
        requires
            old(self).state_spec() is Run,
        ensures
            final(self).state_spec() == WorkerState::Running(pid),
            final(self).peer_state_spec() == old(self).peer_state_spec(),
            final(self).recorder_spec() == old(self).recorder_spec(),
    {
        self.state = WorkerState::Running(pid);
    }

    /// Look in on the benchmark subprocess: while it is alive the worker
    /// keeps waiting; once it is gone — or defunct, the observed pathology
    /// of the collector subprocess — the worker stops.
    pub fn poll_running_process(&mut self) -> (view: ProcessView)
        requires
            old(self).state_spec() is RunningAwaitComplete,
        ensures
            view is Alive ==> final(self).state_spec() == old(self).state_spec(),
            !(view is Alive) ==> final(self).state_spec() == WorkerState::Stopped,
            final(self).peer_state_spec() == old(self).peer_state_spec(),
            final(self).recorder_spec() == old(self).recorder_spec(),
    {
        let pid = match self.state {
            WorkerState::RunningAwaitComplete(p) => p,
            _ => 0,
        };
        let view = probe_process(pid);
        match view {
            ProcessView::Alive => {},
            _ => {
                self.state = WorkerState::Stopped;
            },
        }
        view
    }
}

impl Protocol for WorkerProtocol {
    type State = WorkerState;

    type Peer = CoordState;

    closed spec fn state_spec(&self) -> WorkerState {
        self.state
    }

    closed spec fn peer_state_spec(&self) -> CoordState {
        self.peer_state
    }

    closed spec fn recorder_spec(&self) -> EventRecorder {
        self.event_recorder
    }

    open spec fn is_coordinator() -> bool {
        false
    }

    open spec fn target_spec(t: WorkflowState) -> WorkerState {
        match t {
            WorkflowState::Ready => WorkerState::Ready,
            WorkflowState::Done => WorkerState::Done,
            WorkflowState::WorkerRunning => arbitrary(),
        }
    }

    open spec fn action_spec(s: WorkerState) -> RunAction {
        match s {
            WorkerState::WaitCoordInit => RunAction::AwaitMsg,
            WorkerState::Ready => RunAction::NotifyAndAwaitMsg,
            WorkerState::Run => RunAction::SpawnProcess,
            WorkerState::Running(_) => RunAction::NotifyAndAwaitMsg,
            WorkerState::RunningAwaitComplete(_) => RunAction::ProbeProcess,
            WorkerState::Stopped => RunAction::NotifyAndAwaitMsg,
            WorkerState::Done => RunAction::NotifyFinished,
        }
    }

    fn state(&self) -> (r: &WorkerState) {
        &self.state
    }

    fn name(&self) -> String {
        String::from_str("client-w-").concat(self.id.as_str())
    }

    fn is_state(&self, t: WorkflowState) -> (r: bool) {
        let target = match t {
            WorkflowState::Ready => WorkerState::Ready,
            WorkflowState::Done => WorkerState::Done,
            WorkflowState::WorkerRunning => WorkerState::Done,
        };
        StateApi::eq(&self.state, &target)
    }

    fn run_action(&self) -> (r: RunAction) {
        match self.state {
            WorkerState::WaitCoordInit => RunAction::AwaitMsg,
            WorkerState::Ready => RunAction::NotifyAndAwaitMsg,
            WorkerState::Run => RunAction::SpawnProcess,
            WorkerState::Running(_) => RunAction::NotifyAndAwaitMsg,
            WorkerState::RunningAwaitComplete(_) => RunAction::ProbeProcess,
            WorkerState::Stopped => RunAction::NotifyAndAwaitMsg,
            WorkerState::Done => RunAction::NotifyFinished,
        }
    }

    fn on_msg(&mut self, msg: &Msg) -> (r: Result<bool, RussulaError>) {
        self.event_recorder.process(EventType::RecvMsg);
        let peer = match CoordState::from_msg(msg) {
            Ok(p) => p,
            Err(e) => {
                return Err(e);
            },
        };
        self.peer_state = peer;
        let step = self.state.transition_step();
        let should_advance = match step {
            TransitionStep::AwaitNext(expected) => bytes_eq(msg.as_bytes(), expected.as_slice()),
            _ => false,
        };
        if should_advance {
            self.state = self.state.next_state();
            Ok(true)
        } else {
            Ok(false)
        }
    }

    fn advance(&mut self) {
        self.state = self.state.next_state();
    }

    fn notify_frame(&self) -> (r: Vec<u8>) {
        proof {
            reveal_strlit("WaitCoordInit");
            reveal_strlit("Ready");
            reveal_strlit("Run");
            reveal_strlit("Running");
            reveal_strlit("RunningAwaitComplete");
            reveal_strlit("Stopped");
            reveal_strlit("Done");
            lemma_quoted_bytes_utf8(self.state.name());
        }
        let b = self.state.to_bytes();
        let msg = Msg::from_payload(b);
        construct_payload(&msg)
    }

    fn record_sent(&mut self) {
        self.event_recorder.process(EventType::SendMsg);
    }
}

/// Parsing a serialized client worker state yields that state back, with
/// the local process id zeroed.
pub proof fn lemma_parse_serial(s: WorkerState)
    ensures
        WorkerState::parse_spec(s.serial_spec()) == Some(s.canon()),
{
    reveal_strlit("WaitCoordInit");
    reveal_strlit("Ready");
    reveal_strlit("Run");
    reveal_strlit("Running");
    reveal_strlit("RunningAwaitComplete");
    reveal_strlit("Stopped");
    reveal_strlit("Done");
    assert(WorkerState::WaitCoordInit.serial().len() == 15);
    assert(WorkerState::Ready.serial().len() == 7);
    assert(WorkerState::Run.serial().len() == 5);
    assert(WorkerState::Running(0).serial().len() == 9);
    assert(WorkerState::RunningAwaitComplete(0).serial().len() == 22);
    assert(WorkerState::Stopped.serial().len() == 9);
    assert(WorkerState::Done.serial().len() == 6);
    assert(quoted_bytes("Running"@)[1] == 'R' as u8);
    assert(quoted_bytes("Stopped"@)[1] == 'S' as u8);
    assert(quoted_bytes("Running"@) != quoted_bytes("Stopped"@));
}

/// Serialization is injective up to the local process id: two client
/// worker states with the same serialized bytes are the same state once
/// the id is ignored.
pub proof fn lemma_serial_injective(a: WorkerState, b: WorkerState)
    requires
        a.serial_spec() == b.serial_spec(),
    ensures
        a.canon() == b.canon(),
{
    lemma_parse_serial(a);
    lemma_parse_serial(b);
}

} // verus!
