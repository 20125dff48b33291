use netbench_orchestrator::netbench::{client_coord, client_worker, server_coord, server_worker};
use netbench_orchestrator::network_utils::Msg;
use netbench_orchestrator::states::{StateApi, TransitionStep};

fn wire(bytes: Vec<u8>) -> Msg {
    Msg::new(bytes).unwrap()
}

#[test]
fn server_states_serialize_as_quoted_names() {
    assert_eq!(server_coord::CoordState::CheckWorker.to_bytes(), b"\"CheckWorker\"".to_vec());
    assert_eq!(server_coord::CoordState::Done.to_bytes(), b"\"Done\"".to_vec());
    assert_eq!(server_worker::WorkerState::WaitCoordInit.to_bytes(), b"\"WaitCoordInit\"".to_vec());
    // The local process id never travels.
    assert_eq!(
        server_worker::WorkerState::RunningAwaitKill(12345).to_bytes(),
        b"\"RunningAwaitKill\"".to_vec()
    );
    assert_eq!(
        server_worker::WorkerState::RunningAwaitKill(1).to_bytes(),
        server_worker::WorkerState::RunningAwaitKill(2).to_bytes()
    );
}

#[test]
fn server_coord_serialization_is_injective() {
    let all = [
        server_coord::CoordState::CheckWorker,
        server_coord::CoordState::Ready,
        server_coord::CoordState::RunWorker,
        server_coord::CoordState::WorkersRunning,
        server_coord::CoordState::KillWorker,
        server_coord::CoordState::WorkerKilled,
        server_coord::CoordState::Done,
    ];
    for i in 0..all.len() {
        for j in 0..all.len() {
            if i != j {
                assert_ne!(all[i].to_bytes(), all[j].to_bytes());
            }
        }
    }
}

#[test]
fn server_worker_serialization_is_injective() {
    let all = [
        server_worker::WorkerState::WaitCoordInit,
        server_worker::WorkerState::Ready,
        server_worker::WorkerState::Run,
        server_worker::WorkerState::RunningAwaitKill(0),
        server_worker::WorkerState::Killing(0),
        server_worker::WorkerState::Stopped,
        server_worker::WorkerState::Done,
    ];
    for i in 0..all.len() {
        for j in 0..all.len() {
            if i != j {
                assert_ne!(all[i].to_bytes(), all[j].to_bytes());
            }
        }
    }
}

#[test]
fn client_serialization_is_injective() {
    let coords = [
        client_coord::CoordState::CheckWorker,
        client_coord::CoordState::Ready,
        client_coord::CoordState::RunWorker,
        client_coord::CoordState::WorkersRunning,
        client_coord::CoordState::Done,
    ];
    for i in 0..coords.len() {
        for j in 0..coords.len() {
            if i != j {
                assert_ne!(coords[i].to_bytes(), coords[j].to_bytes());
            }
        }
    }
    let workers = [
        client_worker::WorkerState::WaitCoordInit,
        client_worker::WorkerState::Ready,
        client_worker::WorkerState::Run,
        client_worker::WorkerState::Running(0),
        client_worker::WorkerState::RunningAwaitComplete(0),
        client_worker::WorkerState::Stopped,
        client_worker::WorkerState::Done,
    ];
    for i in 0..workers.len() {
        for j in 0..workers.len() {
            if i != j {
                assert_ne!(workers[i].to_bytes(), workers[j].to_bytes());
            }
        }
    }
}

#[test]
fn states_parse_back_from_their_bytes() {
    let s = server_coord::CoordState::KillWorker;
    let parsed = server_coord::CoordState::from_msg(&wire(s.to_bytes())).unwrap();
    assert_eq!(parsed, s);

    let w = server_worker::WorkerState::Killing(777);
    let parsed = server_worker::WorkerState::from_msg(&wire(w.to_bytes())).unwrap();
    // The id is local: it comes back zeroed.
    assert_eq!(parsed, server_worker::WorkerState::Killing(0));

    let garbage = wire(b"\"NoSuchState\"".to_vec());
    assert!(server_coord::CoordState::from_msg(&garbage).is_err());
    assert!(client_worker::WorkerState::from_msg(&garbage).is_err());
}

#[test]
fn transition_steps_follow_the_policy_table() {
    match server_worker::WorkerState::WaitCoordInit.transition_step() {
        TransitionStep::AwaitNext(expected) => {
            assert_eq!(expected, server_coord::CoordState::CheckWorker.to_bytes());
        }
        _ => panic!("WaitCoordInit should await the coordinator"),
    }
    assert!(matches!(
        server_worker::WorkerState::Run.transition_step(),
        TransitionStep::SelfDriven
    ));
    assert!(matches!(
        server_coord::CoordState::Ready.transition_step(),
        TransitionStep::UserDriven
    ));
    assert!(matches!(
        server_coord::CoordState::Done.transition_step(),
        TransitionStep::Finished
    ));
    match client_coord::CoordState::WorkersRunning.transition_step() {
        TransitionStep::AwaitNext(expected) => {
            assert_eq!(expected, client_worker::WorkerState::Stopped.to_bytes());
        }
        _ => panic!("the client coordinator waits for stopped workers"),
    }
}

#[test]
fn next_state_walks_the_documented_orders() {
    assert_eq!(
        server_coord::CoordState::CheckWorker.next_state(),
        server_coord::CoordState::Ready
    );
    assert_eq!(
        server_coord::CoordState::Ready.next_state(),
        server_coord::CoordState::RunWorker
    );
    assert_eq!(
        server_coord::CoordState::RunWorker.next_state(),
        server_coord::CoordState::WorkersRunning
    );
    assert_eq!(
        server_coord::CoordState::WorkersRunning.next_state(),
        server_coord::CoordState::KillWorker
    );
    assert_eq!(
        server_coord::CoordState::KillWorker.next_state(),
        server_coord::CoordState::WorkerKilled
    );
    assert_eq!(
        server_coord::CoordState::WorkerKilled.next_state(),
        server_coord::CoordState::Done
    );
    assert_eq!(server_coord::CoordState::Done.next_state(), server_coord::CoordState::Done);

    assert_eq!(
        server_worker::WorkerState::RunningAwaitKill(42).next_state(),
        server_worker::WorkerState::Killing(42)
    );
    assert_eq!(
        server_worker::WorkerState::Killing(42).next_state(),
        server_worker::WorkerState::Stopped
    );

    assert_eq!(
        client_worker::WorkerState::Running(9).next_state(),
        client_worker::WorkerState::RunningAwaitComplete(9)
    );
    assert_eq!(
        client_worker::WorkerState::RunningAwaitComplete(9).next_state(),
        client_worker::WorkerState::Stopped
    );
}

#[test]
fn state_equality_goes_by_serialized_bytes() {
    let a = server_worker::WorkerState::RunningAwaitKill(1);
    let b = server_worker::WorkerState::RunningAwaitKill(999);
    assert!(StateApi::eq(&a, &b));
    let c = server_worker::WorkerState::Stopped;
    assert!(!StateApi::eq(&a, &c));
}
