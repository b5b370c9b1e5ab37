//! Helper processes: the pool's accounts, the frames and the owned hosts.
use adobepy::config::QuiescenceAck;
use adobepy::files::{FileFacts, FileIdentity};
use adobepy::helper::{
    frame_request, hash_receipt, hashed_response, helper_command, open_request, open_response,
    run_helper_step, seal_request, seal_request_as, seal_response, stable_file_bytes,
    staging_place, within_bound, worker_response, FrameBuffer, FrameEnd, FrameKind, FrameProgress, HashReceipt,
    HelperCommand, HelperPoolError, HelperProgram, HelperRequest, HelperRequestEnvelope,
    HelperResponse, HelperRunEvent, HelperRunPhase, HelperRunStep, StableRead, WorkerOutcome,
    HELPER_PROTOCOL_VERSION, HELPER_REAP_BUDGET_MS, HELPER_VERSION_LINE, MAX_HELPER_REQUEST_BYTES,
    MAX_HELPER_RESPONSE_BYTES, MAX_HELPER_STDERR_BYTES,
};
use adobepy::host::{
    kill_succeeded, kill_target, HostProcessBroker, HostProcessError, Remainder, Termination,
};
use adobepy::pool::{HelperProcessPool, PoolConfigError, QueueEvent};

fn facts(is_file: bool, len: u64) -> FileFacts {
    FileFacts { is_file, is_dir: !is_file, is_symlink: false, is_reparse: false, len }
}

/// A pool whose helpers have all been spawned.
fn pool(capacity: usize, queue_capacity: usize) -> HelperProcessPool {
    let mut pool = HelperProcessPool::new(capacity, queue_capacity).unwrap();
    for _ in 0..capacity {
        pool.begin_spawn();
        assert_eq!(pool.snapshot().spawning_helpers, 1);
        pool.finish_spawn(true);
    }
    pool
}

/// Takes a job up to the point where it has a helper.
fn start(pool: &mut HelperProcessPool) {
    pool.admit_job().unwrap();
    pool.leave_queue(QueueEvent::WorkerFree).unwrap();
    pool.begin_preparing();
    pool.take_helper(true).unwrap();
}

/// Terminates the helper of a running job and ends the job.
fn terminate(pool: &mut HelperProcessPool, outcome: HelperPoolError) {
    pool.begin_termination(outcome);
    pool.reaped(false);
    pool.finish_job();
}

/// Closes the pool and reaps its idle helpers.
fn shut_down(pool: &mut HelperProcessPool) {
    for _ in 0..pool.shutdown() {
        pool.begin_termination(HelperPoolError::ShuttingDown);
        pool.reaped(false);
    }
}

#[test]
fn admission_queue_process_count_and_shutdown_are_bounded() {
    let mut pool = pool(2, 1);
    start(&mut pool);
    start(&mut pool);
    pool.admit_job().unwrap();
    assert_eq!(pool.snapshot().active_jobs, 3);
    assert_eq!(pool.snapshot().running_helpers, 2);

    assert_eq!(pool.admit_job().unwrap_err(), HelperPoolError::Overloaded);
    shut_down(&mut pool);
    for _ in 0..2 {
        match run_helper_step(HelperRunPhase::Reading, HelperRunEvent::ShuttingDown, "id") {
            HelperRunStep::Terminate(outcome) => {
                assert_eq!(outcome, HelperPoolError::ShuttingDown);
                terminate(&mut pool, outcome);
            }
            other => panic!("shutdown task returned {other:?}"),
        }
    }
    assert_eq!(
        pool.leave_queue(QueueEvent::ShuttingDown).unwrap_err(),
        HelperPoolError::ShuttingDown
    );
    assert!(
        pool.is_quiescent(),
        "shutdown did not quiesce every phase: {:?}",
        pool.snapshot()
    );
    let snapshot = pool.snapshot();
    assert_eq!(snapshot.active_jobs, 0);
    assert_eq!(snapshot.queued_jobs, 0);
    assert_eq!(snapshot.running_helpers, 0);
    assert_eq!(snapshot.preparing_helpers, 0);
    assert_eq!(snapshot.spawning_helpers, 0);
    assert_eq!(snapshot.owned_children, 0);
    assert_eq!(snapshot.reaping_children, 0);
    assert!(snapshot.maximum_active_jobs <= 3);
    assert!(snapshot.maximum_running_helpers <= 2);
    assert!(!snapshot.poisoned);
    assert_eq!(pool.admit_job().unwrap_err(), HelperPoolError::ShuttingDown);
}

#[test]
fn persistent_helper_is_reused_without_replacement_or_capacity_growth() {
    let mut pool = pool(1, 0);
    let initial = pool.snapshot();
    assert_eq!(initial.owned_children, 1);
    assert_eq!(initial.spawning_helpers, 0);

    for _ in 0..3 {
        start(&mut pool);
        let envelope = seal_response("id".into(), HelperResponse::Completed);
        match run_helper_step(HelperRunPhase::Reading, HelperRunEvent::Answered(Some(envelope)), "id")
        {
            HelperRunStep::Return(response) => assert_eq!(response, HelperResponse::Completed),
            other => panic!("{other:?}"),
        }
        assert!(pool.return_helper());
        pool.finish_job();
        let snapshot = pool.snapshot();
        assert_eq!(snapshot.owned_children, 1);
        assert_eq!(snapshot.spawning_helpers, 0);
    }

    shut_down(&mut pool);
    assert_eq!(pool.snapshot().owned_children, 0);
}

#[test]
fn a_late_helper_is_reaped_and_poisons_the_pool() {
    let mut pool = pool(1, 0);
    start(&mut pool);
    let outcome = match run_helper_step(HelperRunPhase::Reading, HelperRunEvent::TimedOut, "id") {
        HelperRunStep::Terminate(outcome) => outcome,
        other => panic!("{other:?}"),
    };
    assert_eq!(outcome, HelperPoolError::TimedOut);
    terminate(&mut pool, outcome);
    assert_eq!(pool.admit_job().unwrap_err(), HelperPoolError::ShuttingDown);
    assert_eq!(pool.snapshot().maximum_running_helpers, 1);
    assert!(pool.snapshot().poisoned);
    shut_down(&mut pool);
    assert!(pool.is_quiescent());
    assert_eq!(pool.snapshot().active_jobs, 0);
    assert_eq!(pool.snapshot().running_helpers, 0);
}

#[test]
fn helpers_that_cannot_be_brought_down_keep_the_pool_active() {
    let mut unkillable = pool(1, 0);
    start(&mut unkillable);
    unkillable.begin_termination(HelperPoolError::TimedOut);
    assert_eq!(unkillable.kill_failed(), HelperPoolError::QuiescenceFailed);
    unkillable.reaped(false);
    unkillable.finish_job();
    assert_eq!(unkillable.snapshot().active_jobs, 1);
    assert!(!unkillable.is_quiescent());

    let mut slow = pool(1, 0);
    start(&mut slow);
    slow.begin_termination(HelperPoolError::TimedOut);
    assert_eq!(slow.reap_timed_out(), HelperPoolError::QuiescenceFailed);
    slow.finish_job();
    assert_eq!(slow.snapshot().active_jobs, 1);
    slow.reaped(true);
    assert!(slow.is_quiescent());
}

#[test]
fn ending_a_helper_gives_its_error_or_a_failure() {
    let mut quick = pool(1, 0);
    start(&mut quick);
    quick.begin_termination(HelperPoolError::TimedOut);
    assert_eq!(
        quick.termination_outcome(HelperPoolError::TimedOut, true),
        HelperPoolError::TimedOut
    );
    quick.finish_job();
    assert!(quick.is_quiescent());
    assert!(quick.snapshot().poisoned);
    assert_eq!(quick.shutdown_answer(false), Some(true));
    assert_eq!(quick.admit_job().unwrap_err(), HelperPoolError::ShuttingDown);

    let mut slow = pool(1, 0);
    start(&mut slow);
    slow.begin_termination(HelperPoolError::FailedClosed);
    assert_eq!(
        slow.termination_outcome(HelperPoolError::FailedClosed, false),
        HelperPoolError::QuiescenceFailed
    );
    slow.finish_job();
    assert_eq!(slow.shutdown_answer(false), None);
    assert_eq!(slow.shutdown_answer(true), Some(false));
    slow.reaped(true);
    assert_eq!(slow.shutdown_answer(true), Some(true));
}

#[test]
fn a_file_is_staged_in_a_directory_of_its_own() {
    let id = "76db1078-74c9-45c1-87e1-e8258649815e";
    let place = staging_place("9d31eb71-26cb-4c87-8b5a-4cadcc8e2f99", &id.to_uppercase()).unwrap();
    assert_eq!(place.components(), vec!["adobepy-bootstrap-staging", id, "payload.bin"]);
}

#[test]
fn a_job_without_a_frame_or_a_helper_fails() {
    let mut pool = pool(1, 1);
    pool.admit_job().unwrap();
    pool.leave_queue(QueueEvent::WorkerFree).unwrap();
    pool.begin_preparing();
    assert_eq!(pool.take_helper(false).unwrap_err(), HelperPoolError::FailedClosed);
    pool.finish_job();
    pool.admit_job().unwrap();
    assert_eq!(pool.leave_queue(QueueEvent::TimedOut).unwrap_err(), HelperPoolError::TimedOut);
    let mut empty = HelperProcessPool::new(1, 0).unwrap();
    empty.begin_spawn();
    empty.finish_spawn(false);
    empty.admit_job().unwrap();
    empty.leave_queue(QueueEvent::WorkerFree).unwrap();
    empty.begin_preparing();
    assert_eq!(empty.take_helper(true).unwrap_err(), HelperPoolError::FailedClosed);
}

#[test]
fn a_pool_needs_room_and_closes_with_its_last_handle() {
    assert_eq!(HelperProcessPool::new(0, 3).unwrap_err(), PoolConfigError::NoCapacity);
    assert_eq!(HelperProcessPool::new(2, usize::MAX).unwrap_err(), PoolConfigError::Overflow);
    assert_ne!(PoolConfigError::NoCapacity.message(), PoolConfigError::Overflow.message());
    let mut pool = pool(1, 0);
    pool.clone_handle();
    assert!(!pool.drop_handle());
    assert!(pool.admit_job().is_ok());
    assert!(pool.drop_handle());
    assert_eq!(pool.admit_job().unwrap_err(), HelperPoolError::ShuttingDown);
    start_after_close(&mut pool);
}

fn start_after_close(pool: &mut HelperProcessPool) {
    pool.leave_queue(QueueEvent::WorkerFree).unwrap();
    pool.begin_preparing();
    pool.take_helper(true).unwrap();
    assert!(!pool.return_helper());
    terminate(pool, HelperPoolError::ShuttingDown);
    assert!(pool.is_quiescent());
}

#[test]
fn helper_rejects_an_oversized_request_before_newline_or_eof() {
    let mut frame = FrameBuffer::new(FrameKind::Request);
    let chunk = vec![b'x'; 8 * 1024];
    let mut sent = 0;
    let exited = loop {
        if sent >= 600 * 1024 {
            break false;
        }
        sent += chunk.len();
        match frame.accept(&chunk, MAX_HELPER_REQUEST_BYTES) {
            FrameProgress::TooLong => break true,
            FrameProgress::More => {}
            other => panic!("{other:?}"),
        }
    };
    assert!(exited, "oversized unterminated request remained buffered");
}

#[test]
fn frames_end_at_the_newline_whatever_the_chunks() {
    for cut in 0..8 {
        let text = b"ab\r\ncd\n";
        let mut frame = FrameBuffer::new(FrameKind::Request);
        let mut rest: Vec<u8> = vec![];
        let mut done = false;
        for chunk in [&text[..cut.min(7)], &text[cut.min(7)..]] {
            if done {
                rest.extend_from_slice(chunk);
                continue;
            }
            match frame.accept(chunk, 16) {
                FrameProgress::Complete { consumed } => {
                    done = true;
                    rest.extend_from_slice(&chunk[consumed..]);
                }
                FrameProgress::More => {}
                FrameProgress::TooLong => panic!("too long"),
            }
        }
        assert!(done);
        assert_eq!(frame.bytes, b"ab");
        assert_eq!(rest, b"cd\n");
    }
    let mut bounded = FrameBuffer::new(FrameKind::Request);
    assert_eq!(bounded.accept(b"abc\n", 2), FrameProgress::TooLong);
    assert_eq!(bounded.accept(b"ab\n", 2), FrameProgress::Complete { consumed: 3 });
    let mut response = FrameBuffer::new(FrameKind::Response);
    assert_eq!(response.accept(b"a\r\n", 8), FrameProgress::Complete { consumed: 3 });
    assert_eq!(response.bytes, b"a\r");
}

#[test]
fn a_stream_ends_with_or_without_a_frame() {
    assert!(matches!(FrameBuffer::new(FrameKind::Request).end(), FrameEnd::Nothing));
    let mut request = FrameBuffer::new(FrameKind::Request);
    request.accept(b"ab", 8);
    match request.end() {
        FrameEnd::Frame(bytes) => assert_eq!(bytes, b"ab"),
        other => panic!("{other:?}"),
    }
    let mut response = FrameBuffer::new(FrameKind::Response);
    response.accept(b"ab", 8);
    assert!(matches!(response.end(), FrameEnd::CutOff));
}

#[test]
fn requests_are_sealed_and_opened() {
    let envelope =
        seal_request_as(0x76db1078_74c9_45c1_87e1_e8258649815e, HelperRequest::PanicProbe);
    assert_eq!(envelope.request_id, "76db1078-74c9-45c1-87e1-e8258649815e");
    assert_eq!(envelope.protocol_version, HELPER_PROTOCOL_VERSION);
    assert!(open_request(&envelope));
    let drawn = seal_request(HelperRequest::Sleep { millis: 1 });
    assert!(open_request(&drawn));
    assert_ne!(drawn.request_id, seal_request(HelperRequest::Sleep { millis: 1 }).request_id);
    let old = HelperRequestEnvelope { protocol_version: 0, ..envelope };
    assert!(!open_request(&old));
    let anonymous =
        HelperRequestEnvelope { protocol_version: 1, request_id: "x".into(), ..old };
    assert!(!open_request(&anonymous));
    let answer = seal_response("a".into(), HelperResponse::Completed);
    assert_eq!(open_response(answer, "b").unwrap_err(), HelperPoolError::FailedClosed);
    let mut answer = seal_response("a".into(), HelperResponse::Completed);
    answer.protocol_version = 2;
    assert_eq!(open_response(answer, "a").unwrap_err(), HelperPoolError::FailedClosed);
    assert_eq!(frame_request(b"{}".to_vec()).unwrap(), b"{}\n");
    let long = vec![0; MAX_HELPER_REQUEST_BYTES];
    assert_eq!(frame_request(long).unwrap_err(), HelperPoolError::FailedClosed);
    assert!(within_bound(&vec![0; MAX_HELPER_STDERR_BYTES], MAX_HELPER_STDERR_BYTES));
    assert!(!within_bound(&vec![0; 2], 1));
    assert_eq!(MAX_HELPER_RESPONSE_BYTES, 64 * 1024);
    assert_eq!(HELPER_REAP_BUDGET_MS, 150);
}

#[test]
fn a_job_ends_with_the_answer_to_its_own_request_only() {
    assert!(matches!(
        run_helper_step(HelperRunPhase::Writing, HelperRunEvent::Written(true), "a"),
        HelperRunStep::Read
    ));
    for event in [
        HelperRunEvent::Written(false),
        HelperRunEvent::Answered(None),
        HelperRunEvent::Answered(Some(seal_response("b".into(), HelperResponse::Completed))),
    ] {
        match run_helper_step(HelperRunPhase::Reading, event, "a") {
            HelperRunStep::Terminate(error) => assert_eq!(error, HelperPoolError::FailedClosed),
            other => panic!("{other:?}"),
        }
    }
    for error in [
        HelperPoolError::Overloaded,
        HelperPoolError::TimedOut,
        HelperPoolError::ShuttingDown,
        HelperPoolError::FailedClosed,
        HelperPoolError::QuiescenceFailed,
    ] {
        assert!(!error.message().is_empty());
    }
}

#[test]
fn a_worker_tells_nothing_of_its_failure() {
    assert_eq!(
        worker_response(WorkerOutcome::Panicked),
        HelperResponse::Failed { code: "worker_panicked".into() }
    );
    assert_eq!(
        worker_response(WorkerOutcome::Failed),
        HelperResponse::Failed { code: "worker_failed".into() }
    );
    assert_eq!(
        worker_response(WorkerOutcome::Done(HelperResponse::Completed)),
        HelperResponse::Completed
    );
}

#[test]
fn files_are_hashed_where_they_hold_still() {
    let identity = FileIdentity { primary: 1, secondary: 2 };
    let read = |len_after: u64, after: FileIdentity| StableRead {
        before: facts(true, 3),
        identity,
        bytes: b"abc".to_vec(),
        len_after,
        identity_after: identity,
        path_identity_after: after,
    };
    let bytes = stable_file_bytes(read(3, identity), 3).unwrap();
    let response = hashed_response(&bytes);
    assert_eq!(
        hash_receipt(response).unwrap(),
        HashReceipt {
            bytes: 3,
            sha256: "ba7816bf8f01cfea414140de5dae2223b00361a396177a9cb410ff61f20015ad".into(),
        }
    );
    assert!(stable_file_bytes(read(3, identity), 2).is_none());
    assert!(stable_file_bytes(read(4, identity), 9).is_none());
    assert!(stable_file_bytes(read(3, FileIdentity { primary: 1, secondary: 3 }), 9).is_none());
    assert_eq!(hash_receipt(HelperResponse::Completed).unwrap_err(), HelperPoolError::FailedClosed);
}

#[test]
fn only_a_plain_program_in_its_place_may_run() {
    let program = HelperProgram::new("/opt/helper".into(), vec![]);
    let sibling = HelperProgram::sibling("/opt/helper".into());
    let directories = vec![facts(false, 0), facts(true, 9)];
    assert!(program.may_run(&directories, facts(true, 9), "/opt", "/elsewhere"));
    assert!(sibling.may_run(&directories, facts(true, 9), "/opt", "/opt"));
    assert!(!sibling.may_run(&directories, facts(true, 9), "/opt", "/elsewhere"));
    assert!(!program.may_run(&directories, facts(false, 0), "/opt", "/opt"));
    let redirected = vec![FileFacts { is_symlink: true, ..facts(false, 0) }];
    assert!(!program.may_run(&redirected, facts(true, 9), "/opt", "/opt"));
    assert!(HostProcessBroker::may_spawn(&directories, facts(true, 9)));
    assert!(!HostProcessBroker::may_spawn(&redirected, facts(true, 9)));
}

#[test]
fn helper_arguments_are_read() {
    let read = |arguments: &[&str]| {
        helper_command(&arguments.iter().map(|a| (*a).to_owned()).collect::<Vec<String>>())
    };
    assert_eq!(read(&[]), HelperCommand::Serve);
    assert_eq!(read(&["--version"]), HelperCommand::Version);
    assert_eq!(read(&["--ordinary-panic"]), HelperCommand::OrdinaryPanic);
    assert_eq!(read(&["--hold-ms", "1000"]), HelperCommand::Hold { millis: 1_000 });
    assert_eq!(read(&["--hold-ms", "1s"]), HelperCommand::BadHold);
    assert_eq!(read(&["--hold-ms"]), HelperCommand::Unsupported);
    assert_eq!(read(&["--version", "x"]), HelperCommand::Unsupported);
    assert_eq!(HELPER_VERSION_LINE, "adobepy-bootstrap-helper/1");
}

#[test]
fn an_owned_host_is_reaped_or_stays_on_the_account() {
    let mut broker = HostProcessBroker::default();
    assert_eq!(broker.spawn(None).unwrap_err(), HostProcessError::Spawn);
    assert!(broker.is_quiescent());
    let first = broker.spawn(Some(41)).unwrap();
    let second = broker.spawn(Some(41)).unwrap();
    let identity = first.identity();
    assert!(first.matches(&identity));
    assert_eq!(identity.pid(), 41);
    assert!(!first.matches(&second.identity()));
    assert!(!second.matches(&first.identity()));
    assert!(first.may_terminate().is_ok());
    let (ack, rest) = first.terminate_and_reap(&mut broker, Termination::Reaped);
    assert_eq!(ack.unwrap(), QuiescenceAck { generation: 41 });
    assert_eq!(rest, Remainder::Nothing);
    assert!(!broker.is_quiescent());
    let (ack, rest) = second.terminate_and_reap(&mut broker, Termination::TimedOut);
    assert_eq!(ack.unwrap_err(), HostProcessError::QuiescenceFailed);
    assert_eq!(rest, Remainder::ReapLater);
    assert!(!broker.is_quiescent());
    assert!(broker.reaped_late());
    assert!(broker.is_quiescent());

    let third = broker.spawn_as(Some(7), 1).unwrap();
    let (ack, _) =
        third.terminate_and_reap(&mut broker, Termination::KillFailed(HostProcessError::Stale));
    assert_eq!(ack.unwrap_err(), HostProcessError::Stale);
    assert!(!broker.is_quiescent());
    let fourth = broker.spawn(Some(8)).unwrap();
    assert_eq!(fourth.release(true), Remainder::ReapLater);
    assert!(!broker.reaped_late());
    let fifth = broker.spawn(Some(9)).unwrap();
    assert_eq!(broker.active, 2);
    let (ack, rest) = fifth.terminate_and_reap(&mut broker, Termination::WaitFailed);
    assert_eq!(ack.unwrap_err(), HostProcessError::QuiescenceFailed);
    assert_eq!(rest, Remainder::ReapLater);
    assert_eq!(broker.active, 2);
    assert_eq!(broker.quiesce(false), None);
    assert_eq!(broker.quiesce(true), Some(false));
    assert!(!broker.reaped_late());
    assert_eq!(broker.active, 1);
    assert_eq!(HostProcessBroker::default().quiesce(true), Some(true));
    for error in
        [HostProcessError::Spawn, HostProcessError::QuiescenceFailed, HostProcessError::Stale]
    {
        assert!(!error.message().is_empty());
    }
}

#[test]
fn kill_signals_go_to_the_group() {
    assert_eq!(kill_target(4200), Ok(-4200));
    assert_eq!(kill_target(u32::MAX), Err(HostProcessError::Stale));
    assert_eq!(kill_succeeded(false, 0), Ok(()));
    assert_eq!(kill_succeeded(true, 3), Ok(()));
    assert_eq!(kill_succeeded(true, 1), Err(HostProcessError::QuiescenceFailed));
}
