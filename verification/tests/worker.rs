//! The worker that reloads, and the claim to a reload.

use dae_daemon::claim::{
    try_acquire_reload_claim, BusyErrors, ClaimAction, ClaimEvent, RELOAD_LOCK_MODE,
};
use dae_daemon::worker::{
    run_worker, NoCommand, ResidentReloadWorker, ResidentWorkerCommand, WorkerAction, WorkerEnd,
    WorkerEvent,
};

fn busy() -> BusyErrors {
    BusyErrors { would_block: 11, again: 35 }
}

/// Carries a claim out on a lock that is `taken` or not.
fn claim_on(taken: &mut bool, progress_file: &str) -> Result<bool, String> {
    let mut run = try_acquire_reload_claim(busy(), progress_file.as_bytes());
    loop {
        let event = match run.action() {
            ClaimAction::CreateDir(_) => ClaimEvent::Done(Ok(())),
            ClaimAction::OpenLock { .. } => ClaimEvent::Done(Ok(())),
            ClaimAction::TakeLock => {
                if *taken {
                    ClaimEvent::Locked {
                        status: -1,
                        number: Some(11),
                        error: "Resource temporarily unavailable (os error 11)".to_owned(),
                    }
                } else {
                    *taken = true;
                    ClaimEvent::Locked { status: 0, number: None, error: String::new() }
                }
            }
            ClaimAction::Return(result) => return result,
        };
        run = run.tell(event);
    }
}

#[test]
fn reload_claim_serializes_the_full_progress_transaction() {
    let mut lock = false;
    let progress_file = "/tmp/root/progress";
    let first = claim_on(&mut lock, progress_file).unwrap();
    assert!(first, "first reload must acquire the claim");
    assert!(!claim_on(&mut lock, progress_file).unwrap());
    lock = false;
    assert!(claim_on(&mut lock, progress_file).unwrap());
}

#[test]
fn resident_reload_worker_coalesces_to_one_pending_request() {
    let mut worker = ResidentReloadWorker::spawn(Ok(())).unwrap();

    worker.request_reload().unwrap();
    worker.request_reload().unwrap();
    assert!(matches!(worker.try_recv(), Ok(ResidentWorkerCommand::Reload)));
    assert!(matches!(worker.try_recv(), Err(NoCommand::Empty)));
}

#[test]
fn claim_asks_for_the_directory_the_file_and_the_lock() {
    let run = try_acquire_reload_claim(busy(), b"/run/dae/progress");
    match run.action() {
        ClaimAction::CreateDir(dir) => assert_eq!(dir, b"/run/dae"),
        other => panic!("unexpected action {other:?}"),
    }
    let run = run.tell(ClaimEvent::Done(Ok(())));
    match run.action() {
        ClaimAction::OpenLock { path, mode } => {
            assert_eq!(path, b"/run/dae/progress.lock");
            assert_eq!(mode, 0o600);
            assert_eq!(mode, RELOAD_LOCK_MODE);
        }
        other => panic!("unexpected action {other:?}"),
    }
    let run = run.tell(ClaimEvent::Done(Ok(())));
    assert!(matches!(run.action(), ClaimAction::TakeLock));
}

#[test]
fn claim_of_the_empty_path_and_of_the_root() {
    let run = try_acquire_reload_claim(busy(), b"");
    assert!(matches!(run.action(), ClaimAction::CreateDir(dir) if dir.is_empty()));
    let run = try_acquire_reload_claim(busy(), b"/");
    assert!(matches!(run.action(), ClaimAction::CreateDir(dir) if dir == b"/"));
}

fn claim_error(events: Vec<ClaimEvent<String>>) -> Result<bool, String> {
    let mut run = try_acquire_reload_claim(busy(), b"/run/dae/progress");
    for event in events {
        run = run.tell(event);
    }
    match run.action() {
        ClaimAction::Return(result) => result,
        other => panic!("unexpected action {other:?}"),
    }
}

#[test]
fn claim_says_why_it_cannot_be_told() {
    assert_eq!(
        claim_error(vec![ClaimEvent::Done(Err("full".to_owned()))]),
        Err("failed to create reload lock dir /run/dae: full".to_owned())
    );
    assert_eq!(
        claim_error(vec![
            ClaimEvent::Done(Ok(())),
            ClaimEvent::Done(Err("denied".to_owned()))
        ]),
        Err("failed to open reload lock /run/dae/progress.lock: denied".to_owned())
    );
    for number in [Some(5), None] {
        assert_eq!(
            claim_error(vec![
                ClaimEvent::Done(Ok(())),
                ClaimEvent::Done(Ok(())),
                ClaimEvent::Locked { status: -1, number, error: "broken".to_owned() },
            ]),
            Err("failed to lock reload transaction /run/dae/progress.lock: broken".to_owned())
        );
    }
}

#[test]
fn lock_decides_the_claim() {
    for (status, number, expected) in [
        (0, None, Ok(true)),
        (0, Some(11), Ok(true)),
        (-1, Some(11), Ok(false)),
        (-1, Some(35), Ok(false)),
    ] {
        assert_eq!(
            claim_error(vec![
                ClaimEvent::Done(Ok(())),
                ClaimEvent::Done(Ok(())),
                ClaimEvent::Locked { status, number, error: "busy".to_owned() },
                ClaimEvent::Locked { status: -1, number: None, error: "late".to_owned() },
            ]),
            expected
        );
    }
}

#[test]
fn worker_that_did_not_start_says_so() {
    assert_eq!(
        ResidentReloadWorker::spawn(Err("no threads".to_owned())).unwrap_err(),
        "failed to start resident reload worker: no threads"
    );
}

#[test]
fn many_requests_are_met_by_one_reload() {
    let mut worker = ResidentReloadWorker::spawn(Ok(())).unwrap();
    for _ in 0..1_000 {
        assert_eq!(worker.request_reload(), Ok(()));
    }
    let command = worker.try_recv().unwrap();
    assert!(worker.takes_up(command));
    assert_eq!(worker.try_recv(), Err(NoCommand::Empty));
    assert_eq!(worker.request_reload(), Ok(()));
    assert_eq!(worker.try_recv(), Ok(ResidentWorkerCommand::Reload));
}

#[test]
fn worker_that_is_to_end_takes_up_nothing() {
    let mut worker = ResidentReloadWorker::spawn(Ok(())).unwrap();
    worker.request_reload().unwrap();
    assert!(!worker.is_stopping());
    worker.begin_shutdown();
    assert!(worker.is_stopping());
    let command = worker.try_recv().unwrap();
    assert_eq!(command, ResidentWorkerCommand::Reload);
    assert!(!worker.takes_up(command));
    assert_eq!(worker.shutdown(WorkerEnd::Joined), Ok(()));

    let mut idle = ResidentReloadWorker::spawn(Ok(())).unwrap();
    idle.begin_shutdown();
    let command = idle.try_recv().unwrap();
    assert_eq!(command, ResidentWorkerCommand::Shutdown);
    assert!(!idle.takes_up(command));
}

#[test]
fn worker_that_gave_up_says_why() {
    let mut worker = ResidentReloadWorker::spawn(Ok(())).unwrap();
    assert!(worker.finish_reload(Ok(())));
    assert_eq!(worker.failure_message(), None);
    worker.request_reload().unwrap();
    assert!(!worker.finish_reload(Err("no runtime".to_owned())));
    assert!(worker.is_stopping());
    assert!(!worker.takes_up(ResidentWorkerCommand::Reload));
    assert_eq!(worker.request_reload(), Ok(()));
    worker.close();
    assert_eq!(worker.request_reload(), Err("no runtime".to_owned()));
    assert_eq!(worker.failure_message(), Some("no runtime".to_owned()));
    worker.begin_shutdown();
    assert_eq!(worker.shutdown(WorkerEnd::Joined), Err("no runtime".to_owned()));
    assert_eq!(worker.shutdown(WorkerEnd::NoThread), Err("no runtime".to_owned()));
    assert_eq!(
        worker.shutdown(WorkerEnd::Panicked),
        Err("resident reload worker panicked".to_owned())
    );
}

#[test]
fn worker_that_is_gone_takes_no_request() {
    let mut worker = ResidentReloadWorker::spawn(Ok(())).unwrap();
    worker.close();
    assert_eq!(
        worker.request_reload(),
        Err("resident reload worker stopped unexpectedly".to_owned())
    );
    worker.begin_shutdown();
    assert_eq!(worker.try_recv(), Err(NoCommand::Empty));
    assert_eq!(worker.shutdown(WorkerEnd::NoThread), Ok(()));
}

#[test]
fn worker_without_an_owner_still_gets_what_waits() {
    let mut worker = ResidentReloadWorker::spawn(Ok(())).unwrap();
    worker.request_reload().unwrap();
    worker.abandon();
    assert_eq!(worker.try_recv(), Ok(ResidentWorkerCommand::Reload));
    assert_eq!(worker.try_recv(), Err(NoCommand::Disconnected));
}

#[test]
fn thread_reloads_until_it_is_to_end() {
    let mut shared = ResidentReloadWorker::spawn(Ok(())).unwrap();
    let run = run_worker();
    assert_eq!(run.action(), WorkerAction::Receive);
    let run = run.tell(&mut shared, WorkerEvent::Looked);
    assert_eq!(run.action(), WorkerAction::Receive);
    shared.request_reload().unwrap();
    let run = run.tell(&mut shared, WorkerEvent::Looked);
    assert_eq!(run.action(), WorkerAction::Reload);
    shared.request_reload().unwrap();
    let run = run.tell(&mut shared, WorkerEvent::Reloaded(Ok(())));
    assert_eq!(run.action(), WorkerAction::Receive);
    let run = run.tell(&mut shared, WorkerEvent::Looked);
    assert_eq!(run.action(), WorkerAction::Reload);
    shared.begin_shutdown();
    let run = run.tell(&mut shared, WorkerEvent::Reloaded(Ok(())));
    assert_eq!(run.action(), WorkerAction::Receive);
    let run = run.tell(&mut shared, WorkerEvent::Looked);
    assert_eq!(run.action(), WorkerAction::Return);
    assert!(shared.request_reload().is_err());
    assert_eq!(shared.shutdown(WorkerEnd::Joined), Ok(()));
}

#[test]
fn thread_tells_the_service_to_go_down_after_a_reload_that_failed() {
    let mut shared = ResidentReloadWorker::spawn(Ok(())).unwrap();
    shared.request_reload().unwrap();
    let run = run_worker().tell(&mut shared, WorkerEvent::Looked);
    shared.request_reload().unwrap();
    let run = run.tell(&mut shared, WorkerEvent::Reloaded(Err("no runtime".to_owned())));
    assert_eq!(run.action(), WorkerAction::GoDown);
    assert!(shared.is_stopping());
    assert_eq!(shared.failure_message(), Some("no runtime".to_owned()));
    assert_eq!(shared.request_reload(), Ok(()));
    let run = run.tell(&mut shared, WorkerEvent::WentDown);
    assert_eq!(run.action(), WorkerAction::Return);
    assert_eq!(shared.request_reload(), Err("no runtime".to_owned()));
    assert_eq!(shared.shutdown(WorkerEnd::Joined), Err("no runtime".to_owned()));
}

#[test]
fn thread_takes_up_no_reload_once_it_is_to_end() {
    let mut shared = ResidentReloadWorker::spawn(Ok(())).unwrap();
    shared.request_reload().unwrap();
    shared.begin_shutdown();
    let run = run_worker().tell(&mut shared, WorkerEvent::Looked);
    assert_eq!(run.action(), WorkerAction::Return);

    let mut idle = ResidentReloadWorker::spawn(Ok(())).unwrap();
    idle.begin_shutdown();
    let run = run_worker().tell(&mut idle, WorkerEvent::Looked);
    assert_eq!(run.action(), WorkerAction::Return);
}

#[test]
fn thread_ends_without_an_owner_once_nothing_waits() {
    let mut shared = ResidentReloadWorker::spawn(Ok(())).unwrap();
    shared.request_reload().unwrap();
    shared.abandon();
    let run = run_worker().tell(&mut shared, WorkerEvent::Looked);
    assert_eq!(run.action(), WorkerAction::Reload);
    let run = run.tell(&mut shared, WorkerEvent::Looked);
    assert_eq!(run.action(), WorkerAction::Reload);
    let run = run.tell(&mut shared, WorkerEvent::Reloaded(Ok(())));
    let run = run.tell(&mut shared, WorkerEvent::Looked);
    assert_eq!(run.action(), WorkerAction::Return);
}
