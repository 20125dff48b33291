use netbench_orchestrator::event::{EventRecorder, EventType};
use netbench_orchestrator::netbench::{
    client_coord, client_worker, server_coord, server_worker, ClientContext, ServerContext,
};
use netbench_orchestrator::network_utils::Msg;
use netbench_orchestrator::process_monitor::ProcessView;
use netbench_orchestrator::protocol::{PollResult, Protocol, RunAction};
use netbench_orchestrator::states::WorkflowState;
use netbench_orchestrator::workflow::Workflow;

fn msg_of(bytes: Vec<u8>) -> Msg {
    Msg::new(bytes).unwrap()
}

/// Worker alone: a server worker that never hears from a coordinator, or
/// hears anything but the opening state, stays in its initial state.
#[test]
fn worker_alone_never_advances() {
    let mut worker =
        server_worker::WorkerWorkflow::new(String::from("w0"), ServerContext::testing());
    assert!(!worker.is_state(WorkflowState::Ready));
    assert!(!worker.is_state(WorkflowState::Done));
    assert_eq!(*worker.state(), server_worker::WorkerState::WaitCoordInit);

    // Whatever arrives short of the coordinator's opening state is noted
    // and changes nothing.
    for wrong in [
        server_coord::CoordState::Ready,
        server_coord::CoordState::RunWorker,
        server_coord::CoordState::KillWorker,
        server_coord::CoordState::Done,
    ] {
        let transitioned = worker.on_msg(&msg_of(wrong.to_bytes())).unwrap();
        assert!(!transitioned);
        assert_eq!(*worker.state(), server_worker::WorkerState::WaitCoordInit);
    }
}

/// Drive one server coordinator and one server worker against each other,
/// recording every frame either side puts on the wire, and check the
/// documented happy-path sequence.
#[test]
fn server_pair_happy_path() {
    let mut coord = server_coord::CoordWorkflow::new();
    let mut worker =
        server_worker::WorkerWorkflow::new(String::from("w1"), ServerContext::testing());
    let mut sent: Vec<(char, Vec<u8>)> = Vec::new();

    // The coordinator opens: notify, then await.
    assert_eq!(coord.run_action(), RunAction::NotifyAndAwaitMsg);
    sent.push(('c', coord.state().to_bytes()));
    let t = worker.on_msg(&msg_of(coord.state().to_bytes())).unwrap();
    assert!(t);
    assert_eq!(*worker.state(), server_worker::WorkerState::Ready);
    sent.push(('w', worker.state().to_bytes()));

    // The coordinator hears the worker is ready and pairs up.
    let t = coord.on_msg(&msg_of(worker.state().to_bytes())).unwrap();
    assert!(t);
    assert_eq!(*coord.state(), server_coord::CoordState::Ready);
    sent.push(('c', coord.state().to_bytes()));
    assert!(coord.is_state(WorkflowState::Ready));
    assert!(worker.is_state(WorkflowState::Ready));

    // The embedding application asks for the run.
    assert_eq!(coord.run_action(), RunAction::Advance);
    coord.advance();
    assert_eq!(*coord.state(), server_coord::CoordState::RunWorker);
    sent.push(('c', coord.state().to_bytes()));

    let t = worker.on_msg(&msg_of(coord.state().to_bytes())).unwrap();
    assert!(t);
    assert_eq!(*worker.state(), server_worker::WorkerState::Run);

    // The worker spawns the benchmark server.
    assert_eq!(worker.run_action(), RunAction::SpawnProcess);
    worker.start_run(4242);
    assert_eq!(*worker.state(), server_worker::WorkerState::RunningAwaitKill(4242));
    sent.push(('w', worker.state().to_bytes()));

    let t = coord.on_msg(&msg_of(worker.state().to_bytes())).unwrap();
    assert!(t);
    assert_eq!(*coord.state(), server_coord::CoordState::WorkersRunning);
    assert!(coord.is_state(WorkflowState::WorkerRunning));

    // The embedding application asks for the kill.
    coord.advance();
    assert_eq!(*coord.state(), server_coord::CoordState::KillWorker);
    sent.push(('c', coord.state().to_bytes()));

    let t = worker.on_msg(&msg_of(coord.state().to_bytes())).unwrap();
    assert!(t);
    assert_eq!(*worker.state(), server_worker::WorkerState::Killing(4242));

    // The worker kills its subprocess (here: nothing to kill) and stops.
    assert_eq!(worker.run_action(), RunAction::KillProcess);
    worker.handle_killing();
    assert_eq!(*worker.state(), server_worker::WorkerState::Stopped);
    sent.push(('w', worker.state().to_bytes()));

    let t = coord.on_msg(&msg_of(worker.state().to_bytes())).unwrap();
    assert!(t);
    assert_eq!(*coord.state(), server_coord::CoordState::WorkerKilled);
    coord.advance();
    assert_eq!(*coord.state(), server_coord::CoordState::Done);
    sent.push(('c', coord.state().to_bytes()));

    let t = worker.on_msg(&msg_of(coord.state().to_bytes())).unwrap();
    assert!(t);
    assert_eq!(*worker.state(), server_worker::WorkerState::Done);
    sent.push(('w', worker.state().to_bytes()));

    assert!(coord.is_state(WorkflowState::Done));
    assert!(worker.is_state(WorkflowState::Done));
    assert_eq!(coord.run_action(), RunAction::NotifyFinished);
    assert_eq!(worker.run_action(), RunAction::NotifyFinished);

    // The frames observed on the wire, in order.
    let expected: Vec<(char, Vec<u8>)> = vec![
        ('c', b"\"CheckWorker\"".to_vec()),
        ('w', b"\"Ready\"".to_vec()),
        ('c', b"\"Ready\"".to_vec()),
        ('c', b"\"RunWorker\"".to_vec()),
        ('w', b"\"RunningAwaitKill\"".to_vec()),
        ('c', b"\"KillWorker\"".to_vec()),
        ('w', b"\"Stopped\"".to_vec()),
        ('c', b"\"Done\"".to_vec()),
        ('w', b"\"Done\"".to_vec()),
    ];
    assert_eq!(sent, expected);
}

/// Step one coordinator instance against one worker until both are done,
/// exchanging each side's current state.
fn run_server_pair(
    coord: &mut server_coord::CoordWorkflow,
    worker: &mut server_worker::WorkerWorkflow,
) {
    let mut budget = 32;
    while !(coord.is_state(WorkflowState::Done) && worker.is_state(WorkflowState::Done)) {
        assert!(budget > 0, "the pair should settle quickly");
        budget -= 1;
        match worker.run_action() {
            RunAction::AwaitMsg | RunAction::NotifyAndAwaitMsg => {
                let _ = worker.on_msg(&msg_of(coord.state().to_bytes())).unwrap();
            }
            RunAction::SpawnProcess => worker.start_run(7),
            RunAction::KillProcess => {
                worker.handle_killing();
            }
            RunAction::NotifyFinished => (),
            _ => panic!("no such worker action"),
        }
        match coord.run_action() {
            RunAction::NotifyAndAwaitMsg => {
                let _ = coord.on_msg(&msg_of(worker.state().to_bytes())).unwrap();
            }
            RunAction::Advance => coord.advance(),
            RunAction::NotifyFinished => (),
            _ => panic!("no such coordinator action"),
        }
    }
}

/// Seven workers: the aggregate reports worker-running only once every
/// worker reported it, and reaches done with every worker done.
#[test]
fn seven_workers_all_report_before_ready() {
    let mut aggregate: Workflow<server_coord::CoordWorkflow> =
        Workflow { instances: Vec::new(), poll_delay_secs: 5 };
    let mut workers: Vec<server_worker::WorkerWorkflow> = Vec::new();
    for i in 0..7u32 {
        aggregate.instances.push(server_coord::CoordWorkflow::new());
        workers.push(server_worker::WorkerWorkflow::new(
            format!("w{}", i),
            ServerContext::testing(),
        ));
    }

    // Drive the first six pairs to the running state; the aggregate stays
    // pending until the seventh reports as well.
    for i in 0..7usize {
        let coord = &mut aggregate.instances[i];
        let worker = &mut workers[i];
        let _ = worker.on_msg(&msg_of(coord.state().to_bytes())).unwrap();
        let _ = coord.on_msg(&msg_of(worker.state().to_bytes())).unwrap();
        coord.advance();
        let _ = worker.on_msg(&msg_of(coord.state().to_bytes())).unwrap();
        worker.start_run(100 + i as u32);
        if i < 6 {
            let _ = coord.on_msg(&msg_of(worker.state().to_bytes())).unwrap();
        }
    }
    assert!(aggregate.poll_result(WorkflowState::WorkerRunning).is_pending());

    {
        let coord = &mut aggregate.instances[6];
        let t = coord.on_msg(&msg_of(workers[6].state().to_bytes())).unwrap();
        assert!(t);
    }
    assert!(aggregate.poll_result(WorkflowState::WorkerRunning).is_ready());

    // Run every pair to the end: the aggregate is done, and every worker
    // ends at its terminal state.
    for i in 0..7usize {
        run_server_pair(&mut aggregate.instances[i], &mut workers[i]);
    }
    assert!(aggregate.is_state(WorkflowState::Done));
    assert_eq!(aggregate.poll_result(WorkflowState::Done), PollResult::Ready);
    for worker in &workers {
        assert_eq!(*worker.state(), server_worker::WorkerState::Done);
    }
}

/// The client pair: the worker watches its subprocess finish on its own.
/// A subprocess that no longer exists — it exited, or was reaped after
/// going defunct — moves the worker to stopped on the next poll.
#[test]
fn client_worker_stops_when_subprocess_is_gone() {
    let mut coord = client_coord::CoordProtocol::new();
    let mut worker =
        client_worker::WorkerProtocol::new(String::from("c1"), ClientContext::testing());

    let _ = worker.on_msg(&msg_of(coord.state().to_bytes())).unwrap();
    let _ = coord.on_msg(&msg_of(worker.state().to_bytes())).unwrap();
    coord.advance();
    let _ = worker.on_msg(&msg_of(coord.state().to_bytes())).unwrap();
    assert_eq!(*worker.state(), client_worker::WorkerState::Run);

    // Use a process id that cannot be live: ids this large are never
    // handed out.
    worker.start_run(u32::MAX - 1);
    let _ = coord.on_msg(&msg_of(worker.state().to_bytes())).unwrap();
    let _ = worker.on_msg(&msg_of(coord.state().to_bytes())).unwrap();
    assert_eq!(
        *worker.state(),
        client_worker::WorkerState::RunningAwaitComplete(u32::MAX - 1)
    );

    assert_eq!(worker.run_action(), RunAction::ProbeProcess);
    let view = worker.poll_running_process();
    assert_eq!(view, ProcessView::Absent);
    assert_eq!(*worker.state(), client_worker::WorkerState::Stopped);

    let t = coord.on_msg(&msg_of(worker.state().to_bytes())).unwrap();
    assert!(t);
    assert_eq!(*coord.state(), client_coord::CoordState::Done);
    let t = worker.on_msg(&msg_of(coord.state().to_bytes())).unwrap();
    assert!(t);
    assert!(worker.is_state(WorkflowState::Done));
}

/// A worker whose subprocess is alive keeps waiting.
#[test]
fn client_worker_waits_while_subprocess_lives() {
    let own_pid = sysinfo::get_current_pid().unwrap().as_u32();
    let mut worker =
        client_worker::WorkerProtocol::new(String::from("c2"), ClientContext::testing());
    let mut coord = client_coord::CoordProtocol::new();
    let _ = worker.on_msg(&msg_of(coord.state().to_bytes())).unwrap();
    let _ = coord.on_msg(&msg_of(worker.state().to_bytes())).unwrap();
    coord.advance();
    let _ = worker.on_msg(&msg_of(coord.state().to_bytes())).unwrap();
    // Stand in the test's own process as the "subprocess": it is alive.
    worker.start_run(own_pid);
    let _ = coord.on_msg(&msg_of(worker.state().to_bytes())).unwrap();
    let _ = worker.on_msg(&msg_of(coord.state().to_bytes())).unwrap();

    let view = worker.poll_running_process();
    assert_eq!(view, ProcessView::Alive);
    assert_eq!(
        *worker.state(),
        client_worker::WorkerState::RunningAwaitComplete(own_pid)
    );
}

/// Killing a subprocess that is already gone still stops the worker; no
/// signal is sent.
#[test]
fn server_worker_kill_of_absent_process() {
    let mut worker =
        server_worker::WorkerWorkflow::new(String::from("w9"), ServerContext::testing());
    let mut coord = server_coord::CoordWorkflow::new();
    let _ = worker.on_msg(&msg_of(coord.state().to_bytes())).unwrap();
    let _ = coord.on_msg(&msg_of(worker.state().to_bytes())).unwrap();
    coord.advance();
    let _ = worker.on_msg(&msg_of(coord.state().to_bytes())).unwrap();
    worker.start_run(u32::MAX - 2);
    let _ = coord.on_msg(&msg_of(worker.state().to_bytes())).unwrap();
    coord.advance();
    let _ = worker.on_msg(&msg_of(coord.state().to_bytes())).unwrap();
    assert_eq!(*worker.state(), server_worker::WorkerState::Killing(u32::MAX - 2));

    let signalled = worker.handle_killing();
    assert!(!signalled);
    assert_eq!(*worker.state(), server_worker::WorkerState::Stopped);
}

#[test]
fn event_recorder_counts_messages() {
    let mut rec = EventRecorder::new();
    assert_eq!(rec.sent_count(), 0);
    assert_eq!(rec.received_count(), 0);
    rec.process(EventType::SendMsg);
    rec.process(EventType::SendMsg);
    rec.process(EventType::RecvMsg);
    assert_eq!(rec.sent_count(), 2);
    assert_eq!(rec.received_count(), 1);

    // Workflows count what they exchange.
    let mut coord = server_coord::CoordWorkflow::new();
    let _ = coord.on_msg(&msg_of(server_worker::WorkerState::Ready.to_bytes()));
    coord.record_sent();
    assert_eq!(coord.event_recorder().received_count(), 1);
    assert_eq!(coord.event_recorder().sent_count(), 1);
}

#[test]
fn notify_frame_is_the_framed_current_state() {
    let coord = server_coord::CoordWorkflow::new();
    let frame = coord.notify_frame();
    let mut expected = vec![0x00, 13];
    expected.extend_from_slice(b"\"CheckWorker\"");
    assert_eq!(frame, expected);
}
