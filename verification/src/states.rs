//! Transition policies and the interface every role state implements.
//!
//! Each role of the coordination protocol is a finite state enumeration.
//! A state serializes to a self-describing text form — its name wrapped in
//! double quotes — and two states are equal exactly when their serialized
//! bytes are equal. Each state carries a transition policy: wait for a
//! specific peer message, advance on local work, advance on user request,
//! or stay put because the machine is finished.

use crate::error::RussulaError;
use crate::network_utils::Msg;
use vstd::prelude::*;

verus! {

/// How a state machine moves to its next state.
pub enum TransitionStep {
    /// The machine advances itself once local work completes.
    SelfDriven,
    /// The machine advances only when the embedding application asks.
    UserDriven,
    /// The machine advances when the peer sends exactly these bytes.
    AwaitNext(Vec<u8>),
    /// Terminal state.
    Finished,
}

/// The target states an embedding application can poll a workflow for.
#[derive(Clone, Copy, Debug, PartialEq, Eq, Structural)]
pub enum WorkflowState {
    /// The workflow has paired with its peer and can make progress.
    Ready,
    /// The workflow's terminal state.
    Done,
    /// Workers are running and accepting work. Coordinators only.
    WorkerRunning,
}

/// The interface of one role's state enumeration.
pub trait StateApi: Sized + Clone {
    /// The characters of this state's name, as it appears on the wire.
    spec fn name_chars(&self) -> Seq<char>;

    /// The serialized bytes of this state: its quoted name.
    spec fn serial_spec(&self) -> Seq<u8>;

    /// True when this state waits for a specific peer message.
    spec fn is_await_next(&self) -> bool;

    /// The peer message that lets this state advance, when it waits for one.
    spec fn expected_msg(&self) -> Seq<u8>;

    /// True when this state advances once local work completes.
    spec fn is_self_driven(&self) -> bool;

    /// True when this state advances on user request.
    spec fn is_user_driven(&self) -> bool;

    /// True when this state is terminal.
    spec fn is_finished(&self) -> bool;

    /// The state that follows this one.
    spec fn next_spec(&self) -> Self;

    /// The state a serialized byte string stands for, if any. A state that
    /// carries a local process id parses with that id zeroed: the id never
    /// travels.
    spec fn parse_spec(b: Seq<u8>) -> Option<Self>;

    /// The transition policy of this state.
    fn transition_step(&self) -> (r: TransitionStep)
        ensures
            r is SelfDriven <==> self.is_self_driven(),
            r is UserDriven <==> self.is_user_driven(),
            r is AwaitNext <==> self.is_await_next(),
            r is Finished <==> self.is_finished(),
            r matches TransitionStep::AwaitNext(v) ==> v@ == self.expected_msg(),
    ;

    /// The state that follows this one.
    fn next_state(&self) -> (r: Self)
        ensures
            r == self.next_spec(),
    ;

    /// Serialize this state for the wire.
    fn as_bytes(&self) -> (r: Vec<u8>)
        ensures
            r@ == self.serial_spec(),
    ;

    /// Two states are equal exactly when their serialized bytes are equal.
    fn eq(&self, other: &Self) -> (r: bool)
        ensures
            r == (self.serial_spec() == other.serial_spec()),
    ;

    /// Parse a received message as a state of this role.
    fn from_msg(msg: &Msg) -> (r: Result<Self, RussulaError>)
        ensures
            r matches Ok(s) ==> Self::parse_spec(msg.payload()) == Some(s),
            r is Err <==> Self::parse_spec(msg.payload()) is None,
            r matches Err(e) ==> e is BadMsg,
    ;
}

} // verus!
