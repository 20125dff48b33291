//! Progress of a coordinator–worker pair.
//!
//! The engine drives each side by the same rules: a state that awaits a
//! peer message advances exactly when the peer's current state arrives and
//! matches; a self-driven state advances once its local work completes; a
//! user-driven coordinator state advances when the embedding application
//! polls past it. These laws take rounds in which each side sees the
//! other's current state and local work completes — the subprocess is
//! spawned, killed, or has exited — and show that both sides of either
//! role pair reach their terminal state and stay there; and that a worker
//! nobody connects to never leaves its initial state.

use crate::netbench::client_coord;
use crate::netbench::client_worker;
use crate::netbench::server_coord;
use crate::netbench::server_worker;
use crate::states::StateApi;
use vstd::prelude::*;

verus! {

/// One message arrives at a server worker: it advances exactly when the
/// message is the state its current state waits for.
pub open spec fn server_worker_msg_step(
    w: server_worker::WorkerState,
    m: Seq<u8>,
) -> server_worker::WorkerState {
    if w.is_await_next() && m == w.expected_msg() {
        w.next_spec()
    } else {
        w
    }
}

/// A server worker consumes a run of messages, in order.
pub open spec fn server_worker_msgs(
    w: server_worker::WorkerState,
    msgs: Seq<Seq<u8>>,
) -> server_worker::WorkerState
    decreases msgs.len(),
{
    if msgs.len() == 0 {
        w
    } else {
        server_worker_msgs(server_worker_msg_step(w, msgs[0]), msgs.drop_first())
    }
}

/// Worker alone: a server worker that never receives the coordinator's
/// opening state stays in its initial state, whatever else arrives — and
/// in particular a worker no coordinator ever connects to never advances.
pub proof fn lemma_worker_alone(msgs: Seq<Seq<u8>>)
    requires
        forall|i: int|
            0 <= i < msgs.len() ==> msgs[i] != server_coord::CoordState::CheckWorker.serial(),
    ensures
        server_worker_msgs(server_worker::WorkerState::WaitCoordInit, msgs)
            == server_worker::WorkerState::WaitCoordInit,
    decreases msgs.len(),
{
    if msgs.len() == 0 {
    } else {
        assert(server_worker_msg_step(server_worker::WorkerState::WaitCoordInit, msgs[0])
            == server_worker::WorkerState::WaitCoordInit);
        lemma_worker_alone(msgs.drop_first());
    }
}

/// Distinct server coordinator states have distinct serializations.
proof fn server_coord_serials_distinct()
    ensures
        forall|a: server_coord::CoordState, b: server_coord::CoordState|
            a != b ==> #[trigger] a.serial() != #[trigger] b.serial(),
{
    assert forall|a: server_coord::CoordState, b: server_coord::CoordState| a != b implies #[trigger] a.serial()
        != #[trigger] b.serial() by {
        if a.serial() == b.serial() {
            server_coord::lemma_serial_injective(a, b);
        }
    }
}

/// Server worker states with distinct names have distinct serializations.
proof fn server_worker_serials_distinct()
    ensures
        forall|a: server_worker::WorkerState, b: server_worker::WorkerState|
            a.canon() != b.canon() ==> #[trigger] a.serial() != #[trigger] b.serial(),
{
    assert forall|a: server_worker::WorkerState, b: server_worker::WorkerState| a.canon()
        != b.canon() implies #[trigger] a.serial() != #[trigger] b.serial() by {
        if a.serial() == b.serial() {
            server_worker::lemma_serial_injective(a, b);
        }
    }
}

/// Distinct client coordinator states have distinct serializations.
proof fn client_coord_serials_distinct()
    ensures
        forall|a: client_coord::CoordState, b: client_coord::CoordState|
            a != b ==> #[trigger] a.serial() != #[trigger] b.serial(),
{
    assert forall|a: client_coord::CoordState, b: client_coord::CoordState| a != b implies #[trigger] a.serial()
        != #[trigger] b.serial() by {
        if a.serial() == b.serial() {
            client_coord::lemma_serial_injective(a, b);
        }
    }
}

/// Client worker states with distinct names have distinct serializations.
proof fn client_worker_serials_distinct()
    ensures
        forall|a: client_worker::WorkerState, b: client_worker::WorkerState|
            a.canon() != b.canon() ==> #[trigger] a.serial() != #[trigger] b.serial(),
{
    assert forall|a: client_worker::WorkerState, b: client_worker::WorkerState| a.canon()
        != b.canon() implies #[trigger] a.serial() != #[trigger] b.serial() by {
        if a.serial() == b.serial() {
            client_worker::lemma_serial_injective(a, b);
        }
    }
}

/// One round of the server pair, worker first: the worker sees the
/// coordinator's current state and runs any self-driven work; then the
/// coordinator sees the worker's new state and runs any user-driven
/// transition the embedding application asks for.
pub open spec fn server_round(
    c: server_coord::CoordState,
    w: server_worker::WorkerState,
) -> (server_coord::CoordState, server_worker::WorkerState) {
    let w2 = if w.is_await_next() && c.serial() == w.expected_msg() {
        w.next_spec()
    } else if w.is_self_driven() {
        w.next_spec()
    } else {
        w
    };
    let c2 = if c.is_await_next() && w2.serial() == c.expected_msg() {
        c.next_spec()
    } else if c.is_user_driven() {
        c.next_spec()
    } else {
        c
    };
    (c2, w2)
}

/// The server pair after `n` rounds from the initial states.
pub open spec fn server_rounds(n: nat) -> (server_coord::CoordState, server_worker::WorkerState)
    decreases n,
{
    if n == 0 {
        (server_coord::CoordState::CheckWorker, server_worker::WorkerState::WaitCoordInit)
    } else {
        let prev = server_rounds((n - 1) as nat);
        server_round(prev.0, prev.1)
    }
}

/// Liveness of the server pair: started at their initial states and
/// repeatedly polled, coordinator and worker both reach their terminal
/// state — after nine rounds at the latest — and stay there.
pub proof fn lemma_server_pair_reaches_done(n: nat)
    requires
        n >= 9,
    ensures
        server_rounds(n).0 is Done,
        server_rounds(n).1 is Done,
    decreases n,
{
    server_coord_serials_distinct();
    server_worker_serials_distinct();
    if n == 9 {
        assert(server_rounds(0) == (
            server_coord::CoordState::CheckWorker,
            server_worker::WorkerState::WaitCoordInit,
        ));
        assert(server_rounds(1) == (
            server_coord::CoordState::Ready,
            server_worker::WorkerState::Ready,
        ));
        assert(server_rounds(2) == (
            server_coord::CoordState::RunWorker,
            server_worker::WorkerState::Ready,
        ));
        assert(server_rounds(3) == (
            server_coord::CoordState::RunWorker,
            server_worker::WorkerState::Run,
        ));
        assert(server_rounds(4) == (
            server_coord::CoordState::WorkersRunning,
            server_worker::WorkerState::RunningAwaitKill(server_worker::PLACEHOLDER_PID),
        ));
        assert(server_rounds(5) == (
            server_coord::CoordState::KillWorker,
            server_worker::WorkerState::RunningAwaitKill(server_worker::PLACEHOLDER_PID),
        ));
        assert(server_rounds(6) == (
            server_coord::CoordState::KillWorker,
            server_worker::WorkerState::Killing(server_worker::PLACEHOLDER_PID),
        ));
        assert(server_rounds(7) == (
            server_coord::CoordState::WorkerKilled,
            server_worker::WorkerState::Stopped,
        ));
        assert(server_rounds(8) == (
            server_coord::CoordState::Done,
            server_worker::WorkerState::Stopped,
        ));
        assert(server_rounds(9) == (
            server_coord::CoordState::Done,
            server_worker::WorkerState::Done,
        ));
    } else {
        lemma_server_pair_reaches_done((n - 1) as nat);
        let prev = server_rounds((n - 1) as nat);
        assert(server_rounds(n) == server_round(prev.0, prev.1));
    }
}

/// One round of the client pair, worker first. The worker's self-driven
/// wait on its subprocess advances in the round where the subprocess has
/// exited or become defunct.
pub open spec fn client_round(
    c: client_coord::CoordState,
    w: client_worker::WorkerState,
) -> (client_coord::CoordState, client_worker::WorkerState) {
    let w2 = if w.is_await_next() && c.serial() == w.expected_msg() {
        w.next_spec()
    } else if w.is_self_driven() {
        w.next_spec()
    } else {
        w
    };
    let c2 = if c.is_await_next() && w2.serial() == c.expected_msg() {
        c.next_spec()
    } else if c.is_user_driven() {
        c.next_spec()
    } else {
        c
    };
    (c2, w2)
}

/// The client pair after `n` rounds from the initial states.
pub open spec fn client_rounds(n: nat) -> (client_coord::CoordState, client_worker::WorkerState)
    decreases n,
{
    if n == 0 {
        (client_coord::CoordState::CheckWorker, client_worker::WorkerState::WaitCoordInit)
    } else {
        let prev = client_rounds((n - 1) as nat);
        client_round(prev.0, prev.1)
    }
}

/// Liveness of the client pair: started at their initial states and
/// repeatedly polled, coordinator and worker both reach their terminal
/// state — after seven rounds at the latest, once the benchmark client
/// subprocess has exited — and stay there.
pub proof fn lemma_client_pair_reaches_done(n: nat)
    requires
        n >= 7,
    ensures
        client_rounds(n).0 is Done,
        client_rounds(n).1 is Done,
    decreases n,
{
    client_coord_serials_distinct();
    client_worker_serials_distinct();
    if n == 7 {
        assert(client_rounds(0) == (
            client_coord::CoordState::CheckWorker,
            client_worker::WorkerState::WaitCoordInit,
        ));
        assert(client_rounds(1) == (
            client_coord::CoordState::Ready,
            client_worker::WorkerState::Ready,
        ));
        assert(client_rounds(2) == (
            client_coord::CoordState::RunWorker,
            client_worker::WorkerState::Ready,
        ));
        assert(client_rounds(3) == (
            client_coord::CoordState::RunWorker,
            client_worker::WorkerState::Run,
        ));
        assert(client_rounds(4) == (
            client_coord::CoordState::WorkersRunning,
            client_worker::WorkerState::Running(client_worker::PLACEHOLDER_PID),
        ));
        assert(client_rounds(5) == (
            client_coord::CoordState::WorkersRunning,
            client_worker::WorkerState::RunningAwaitComplete(client_worker::PLACEHOLDER_PID),
        ));
        assert(client_rounds(6) == (
            client_coord::CoordState::Done,
            client_worker::WorkerState::Stopped,
        ));
        assert(client_rounds(7) == (
            client_coord::CoordState::Done,
            client_worker::WorkerState::Done,
        ));
    } else {
        lemma_client_pair_reaches_done((n - 1) as nat);
        let prev = client_rounds((n - 1) as nat);
        assert(client_rounds(n) == client_round(prev.0, prev.1));
    }
}

} // verus!
