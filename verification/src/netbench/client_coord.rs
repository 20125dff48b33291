//! The client coordinator's state machine.
//!
//! It pairs with each client worker, tells it to start the benchmark
//! client, and waits while the clients run to completion on their own: no
//! kill step, the workers stop themselves.

use crate::error::RussulaError;
use crate::event::{EventRecorder, EventType};
use crate::netbench::client_worker::WorkerState;
use crate::network_utils::{construct_payload, Msg};
use crate::protocol::{Protocol, RunAction};
use crate::states::{StateApi, TransitionStep, WorkflowState};
use crate::wire::{bytes_eq, lemma_quoted_bytes_utf8, quoted_bytes, quoted_bytes_of};
use vstd::prelude::*;
use vstd::string::StringExecFns;

verus! {

/// The client coordinator's states, in the order they are traversed.
#[derive(Clone, Copy, Debug, PartialEq, Eq, Structural)]
pub enum CoordState {
    CheckWorker,
    Ready,
    RunWorker,
    WorkersRunning,
    Done,
}

impl CoordState {
    /// The characters of this state's name.
    pub open spec fn name(self) -> Seq<char> {
        match self {
            CoordState::CheckWorker => "CheckWorker"@,
            CoordState::Ready => "Ready"@,
            CoordState::RunWorker => "RunWorker"@,
            CoordState::WorkersRunning => "WorkersRunning"@,
            CoordState::Done => "Done"@,
        }
    }

    /// The serialized bytes of this state: its quoted name.
    pub open spec fn serial(self) -> Seq<u8> {
        quoted_bytes(self.name())
    }

    /// Serialize this state for the wire.
    pub fn to_bytes(&self) -> (r: Vec<u8>)
        ensures
            r@ == self.serial(),
    {
        proof {
            reveal_strlit("CheckWorker");
            reveal_strlit("Ready");
            reveal_strlit("RunWorker");
            reveal_strlit("WorkersRunning");
            reveal_strlit("Done");
        }
        match self {
            CoordState::CheckWorker => quoted_bytes_of("CheckWorker"),
            CoordState::Ready => quoted_bytes_of("Ready"),
            CoordState::RunWorker => quoted_bytes_of("RunWorker"),
            CoordState::WorkersRunning => quoted_bytes_of("WorkersRunning"),
            CoordState::Done => quoted_bytes_of("Done"),
        }
    }
}

impl StateApi for CoordState {
    open spec fn name_chars(&self) -> Seq<char> {
        self.name()
    }

    open spec fn serial_spec(&self) -> Seq<u8> {
        self.serial()
    }

    open spec fn is_await_next(&self) -> bool {
        self is CheckWorker || self is RunWorker || self is WorkersRunning
    }

    open spec fn expected_msg(&self) -> Seq<u8> {
        match self {
            CoordState::CheckWorker => WorkerState::Ready.serial(),
            CoordState::RunWorker => WorkerState::Running(0).serial(),
            CoordState::WorkersRunning => WorkerState::Stopped.serial(),
            _ => Seq::empty(),
        }
    }

    open spec fn is_self_driven(&self) -> bool {
        false
    }

    open spec fn is_user_driven(&self) -> bool {
        self is Ready
    }

    open spec fn is_finished(&self) -> bool {
        self is Done
    }

    open spec fn next_spec(&self) -> CoordState {
        match self {
            CoordState::CheckWorker => CoordState::Ready,
            CoordState::Ready => CoordState::RunWorker,
            CoordState::RunWorker => CoordState::WorkersRunning,
            CoordState::WorkersRunning => CoordState::Done,
            CoordState::Done => CoordState::Done,
        }
    }

    open spec fn parse_spec(b: Seq<u8>) -> Option<CoordState> {
        if b == CoordState::CheckWorker.serial() {
            Some(CoordState::CheckWorker)
        } else if b == CoordState::Ready.serial() {
            Some(CoordState::Ready)
        } else if b == CoordState::RunWorker.serial() {
            Some(CoordState::RunWorker)
        } else if b == CoordState::WorkersRunning.serial() {
            Some(CoordState::WorkersRunning)
        } else if b == CoordState::Done.serial() {
            Some(CoordState::Done)
        } else {
            None
        }
    }

    fn transition_step(&self) -> (r: TransitionStep) {
        match self {
            CoordState::CheckWorker => TransitionStep::AwaitNext(WorkerState::Ready.to_bytes()),
            CoordState::Ready => TransitionStep::UserDriven,
            CoordState::RunWorker => TransitionStep::AwaitNext(
                WorkerState::Running(0).to_bytes(),
            ),
            CoordState::WorkersRunning => TransitionStep::AwaitNext(
                WorkerState::Stopped.to_bytes(),
            ),
            CoordState::Done => TransitionStep::Finished,
        }
    }

    fn next_state(&self) -> (r: CoordState) {
        match self {
            CoordState::CheckWorker => CoordState::Ready,
            CoordState::Ready => CoordState::RunWorker,
            CoordState::RunWorker => CoordState::WorkersRunning,
            CoordState::WorkersRunning => CoordState::Done,
            CoordState::Done => CoordState::Done,
        }
    }

    fn as_bytes(&self) -> (r: Vec<u8>) {
        self.to_bytes()
    }

    fn eq(&self, other: &CoordState) -> (r: bool) {
        let a = self.as_bytes();
        let b = other.as_bytes();
        bytes_eq(a.as_slice(), b.as_slice())
    }

    fn from_msg(msg: &Msg) -> (r: Result<CoordState, RussulaError>) {
        let b = msg.as_bytes();
        let c0 = CoordState::CheckWorker.to_bytes();
        if bytes_eq(b, c0.as_slice()) {
            return Ok(CoordState::CheckWorker);
        }
        let c1 = CoordState::Ready.to_bytes();
        if bytes_eq(b, c1.as_slice()) {
            return Ok(CoordState::Ready);
        }
        let c2 = CoordState::RunWorker.to_bytes();
        if bytes_eq(b, c2.as_slice()) {
            return Ok(CoordState::RunWorker);
        }
        let c3 = CoordState::WorkersRunning.to_bytes();
        if bytes_eq(b, c3.as_slice()) {
            return Ok(CoordState::WorkersRunning);
        }
        let c4 = CoordState::Done.to_bytes();
        if bytes_eq(b, c4.as_slice()) {
            return Ok(CoordState::Done);
        }
        Err(RussulaError::BadMsg { dbg: String::from_str("not a client coordinator state") })
    }
}

/// The coordinator's workflow instance for the client role.
#[derive(Clone)]
pub struct CoordProtocol {
    state: CoordState,
    peer_state: WorkerState,
    event_recorder: EventRecorder,
}

impl CoordProtocol {
    /// A fresh coordinator, before pairing: it has seen nothing of the
    /// worker yet.
    pub fn new() -> (r: CoordProtocol)
        ensures
            r.state_spec() == CoordState::CheckWorker,
            r.peer_state_spec() == WorkerState::WaitCoordInit,
            r.recorder_spec().sent() == 0,
            r.recorder_spec().received() == 0,
    {
        CoordProtocol {
            state: CoordState::CheckWorker,
            peer_state: WorkerState::WaitCoordInit,
            event_recorder: EventRecorder::new(),
        }
    }

    /// The peer state this coordinator last observed.
    pub fn peer_state(&self) -> (r: &WorkerState)
        ensures
            *r == self.peer_state_spec(),
    {
        &self.peer_state
    }

    /// The event counters.
    pub fn event_recorder(&self) -> (r: &EventRecorder)
        ensures
            *r == self.recorder_spec(),
    {
        &self.event_recorder
    }
}

impl Protocol for CoordProtocol {
    type State = CoordState;

    type Peer = WorkerState;

    closed spec fn state_spec(&self) -> CoordState {
        self.state
    }

    closed spec fn peer_state_spec(&self) -> WorkerState {
        self.peer_state
    }

    closed spec fn recorder_spec(&self) -> EventRecorder {
        self.event_recorder
    }

    open spec fn is_coordinator() -> bool {
        true
    }

    open spec fn target_spec(t: WorkflowState) -> CoordState {
        match t {
            WorkflowState::Ready => CoordState::Ready,
            WorkflowState::Done => CoordState::Done,
            WorkflowState::WorkerRunning => CoordState::WorkersRunning,
        }
    }

    open spec fn action_spec(s: CoordState) -> RunAction {
        match s {
            CoordState::CheckWorker => RunAction::NotifyAndAwaitMsg,
            CoordState::Ready => RunAction::Advance,
            CoordState::RunWorker => RunAction::NotifyAndAwaitMsg,
            CoordState::WorkersRunning => RunAction::NotifyAndAwaitMsg,
            CoordState::Done => RunAction::NotifyFinished,
        }
    }

    fn state(&self) -> (r: &CoordState) {
        &self.state
    }

    fn name(&self) -> String {
        String::from_str("client-c-0")
    }

    fn is_state(&self, t: WorkflowState) -> (r: bool) {
        let target = match t {
            WorkflowState::Ready => CoordState::Ready,
            WorkflowState::Done => CoordState::Done,
            WorkflowState::WorkerRunning => CoordState::WorkersRunning,
        };
        StateApi::eq(&self.state, &target)
    }

    fn run_action(&self) -> (r: RunAction) {
        match self.state {
            CoordState::CheckWorker => RunAction::NotifyAndAwaitMsg,
            CoordState::Ready => RunAction::Advance,
            CoordState::RunWorker => RunAction::NotifyAndAwaitMsg,
            CoordState::WorkersRunning => RunAction::NotifyAndAwaitMsg,
            CoordState::Done => RunAction::NotifyFinished,
        }
    }

    fn on_msg(&mut self, msg: &Msg) -> (r: Result<bool, RussulaError>) {
        self.event_recorder.process(EventType::RecvMsg);
        let peer = match WorkerState::from_msg(msg) {
            Ok(p) => p,
            Err(e) => {
                return Err(e);
            },
        };
        self.peer_state = peer;
        let step = self.state.transition_step();
        let should_advance = match step {
            TransitionStep::AwaitNext(expected) => bytes_eq(msg.as_bytes(), expected.as_slice()),
            _ => false,
        };
        if should_advance {
            self.state = self.state.next_state();
            Ok(true)
        } else {
            Ok(false)
        }
    }

    fn advance(&mut self) {
        self.state = self.state.next_state();
    }

    fn notify_frame(&self) -> (r: Vec<u8>) {
        proof {
            reveal_strlit("CheckWorker");
            reveal_strlit("Ready");
            reveal_strlit("RunWorker");
            reveal_strlit("WorkersRunning");
            reveal_strlit("Done");
            lemma_quoted_bytes_utf8(self.state.name());
        }
        let b = self.state.to_bytes();
        let msg = Msg::from_payload(b);
        construct_payload(&msg)
    }

    fn record_sent(&mut self) {
        self.event_recorder.process(EventType::SendMsg);
    }
}

/// Parsing a serialized client coordinator state yields that state back.
pub proof fn lemma_parse_serial(s: CoordState)
    ensures
        CoordState::parse_spec(s.serial_spec()) == Some(s),
{
    reveal_strlit("CheckWorker");
    reveal_strlit("Ready");
    reveal_strlit("RunWorker");
    reveal_strlit("WorkersRunning");
    reveal_strlit("Done");
    assert(CoordState::CheckWorker.serial().len() == 13);
    assert(CoordState::Ready.serial().len() == 7);
    assert(CoordState::RunWorker.serial().len() == 11);
    assert(CoordState::WorkersRunning.serial().len() == 16);
    assert(CoordState::Done.serial().len() == 6);
}

/// Serialization is injective: two client coordinator states with the same
/// serialized bytes are the same state.
pub proof fn lemma_serial_injective(a: CoordState, b: CoordState)
    requires
        a.serial_spec() == b.serial_spec(),
    ensures
        a == b,
{
    lemma_parse_serial(a);
    lemma_parse_serial(b);
}

} // verus!
