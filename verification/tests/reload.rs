//! Reloads and requests to suspend.

use dae_daemon::notify::Notice;
use dae_daemon::progress::ReloadCodes;
use dae_daemon::reload::{
    handle_reload_until, handle_suspend_compatibility, ReloadAction, ReloadEvent, ReloadFiles,
};
use dae_daemon::runtime::{swap_on, ResidentServiceState};

const CODES: ReloadCodes = ReloadCodes { send: 0, processing: 1, done: 2, error: 3 };

fn files() -> ReloadFiles<Vec<u8>> {
    ReloadFiles {
        config: b"/etc/dae/config.dae".to_vec(),
        progress_file: b"/run/dae.progress".to_vec(),
        abort_file: b"/run/dae.abort".to_vec(),
    }
}

/// How the world around a reload goes.
#[derive(Clone)]
struct World {
    load: Result<bool, String>,
    network: Result<(), String>,
    cancelled: Vec<bool>,
    validate: Result<(), String>,
    swap: (Result<(), String>, bool),
    /// The action, by its number, that fails though it has to succeed.
    breaks: Option<usize>,
}

fn good_world() -> World {
    World {
        load: Ok(true),
        network: Ok(()),
        cancelled: vec![false, false],
        validate: Ok(()),
        swap: (Ok(()), true),
        breaks: None,
    }
}

/// Carries a reload out, and gives what it did and how it ended.
fn reload_in(world: World) -> (Vec<String>, Result<(), String>) {
    let mut run = handle_reload_until(CODES, files());
    let mut log: Vec<String> = Vec::new();
    let mut cancelled = world.cancelled.into_iter();
    loop {
        let step = log.len();
        let outcome = || {
            if world.breaks == Some(step) {
                Err("broken".to_owned())
            } else {
                Ok(())
            }
        };
        let event = match run.action() {
            ReloadAction::Notify(notice) => {
                log.push(notice.text().to_owned());
                ReloadEvent::Done(outcome())
            }
            ReloadAction::WriteProgress { path, code, suffix } => {
                assert_eq!(path, b"/run/dae.progress");
                log.push(format!("progress {code}{suffix}"));
                ReloadEvent::Done(outcome())
            }
            ReloadAction::RemoveAbortFile(path) => {
                assert_eq!(path, b"/run/dae.abort");
                log.push("remove abort".to_owned());
                ReloadEvent::Done(Err("not there".to_owned()))
            }
            ReloadAction::LoadConfig(path) => {
                assert_eq!(path, b"/etc/dae/config.dae");
                log.push("load".to_owned());
                ReloadEvent::Loaded(world.load.clone())
            }
            ReloadAction::WaitForNetwork => {
                log.push("network".to_owned());
                ReloadEvent::Done(world.network.clone())
            }
            ReloadAction::CheckCancelled => {
                log.push("cancelled?".to_owned());
                ReloadEvent::Cancelled(cancelled.next().unwrap())
            }
            ReloadAction::ValidateConfig => {
                log.push("validate".to_owned());
                ReloadEvent::Done(world.validate.clone())
            }
            ReloadAction::SwapRuntime { asset_dir } => {
                assert_eq!(asset_dir, b"/etc/dae");
                log.push("swap".to_owned());
                ReloadEvent::Swapped { result: world.swap.0.clone(), running: world.swap.1 }
            }
            ReloadAction::Log(message) => {
                log.push(format!("log {message}"));
                ReloadEvent::Done(outcome())
            }
            ReloadAction::Return(result) => return (log, result),
        };
        run = run.tell(event);
    }
}

fn start() -> Vec<&'static str> {
    vec!["RELOADING=1", "progress 1", "remove abort", "load"]
}

#[test]
fn reload_that_succeeds() {
    let (log, result) = reload_in(good_world());
    let mut expected = start();
    expected.extend([
        "cancelled?",
        "validate",
        "swap",
        "progress 2\nOK",
        "log reload completed",
        "cancelled?",
        "READY=1",
    ]);
    assert_eq!(log, expected);
    assert_eq!(result, Ok(()));
}

#[test]
fn reload_that_waits_for_the_network() {
    let (log, result) = reload_in(World { load: Ok(false), ..good_world() });
    assert_eq!(log[4], "network");
    assert_eq!(log[5], "cancelled?");
    assert_eq!(result, Ok(()));

    let (log, result) = reload_in(World {
        load: Ok(false),
        network: Err("none".to_owned()),
        cancelled: vec![false],
        ..good_world()
    });
    let mut expected = start();
    expected.extend([
        "network",
        "progress 3\nwaiting for network before reload failed: none",
        "log reload failed while waiting for network",
        "cancelled?",
        "READY=1",
    ]);
    assert_eq!(log, expected);
    assert_eq!(result, Ok(()));
}

#[test]
fn reload_that_is_cancelled() {
    let (log, result) = reload_in(World { cancelled: vec![true], ..good_world() });
    let mut expected = start();
    expected.extend(["cancelled?", "progress 3\nreload cancelled by service shutdown"]);
    assert_eq!(log, expected);
    assert_eq!(result, Ok(()));

    let (log, result) = reload_in(World { cancelled: vec![false, true], ..good_world() });
    assert_eq!(log.last().unwrap(), "cancelled?");
    assert!(log.contains(&"progress 2\nOK".to_owned()));
    assert_eq!(result, Ok(()));
}

#[test]
fn reload_without_a_config() {
    let (log, result) = reload_in(World {
        load: Err("bad config".to_owned()),
        cancelled: vec![false],
        ..good_world()
    });
    let mut expected = start();
    expected.extend(["progress 3\nbad config", "log reload failed", "cancelled?", "READY=1"]);
    assert_eq!(log, expected);
    assert_eq!(result, Ok(()));
}

#[test]
fn reload_with_a_config_that_is_rejected() {
    let (log, result) = reload_in(World { validate: Err("rejected".to_owned()), ..good_world() });
    let mut expected = start();
    expected.extend([
        "cancelled?",
        "validate",
        "progress 3\nrejected",
        "log reload failed",
        "cancelled?",
        "READY=1",
    ]);
    assert_eq!(log, expected);
    assert_eq!(result, Ok(()));
}

#[test]
fn reload_whose_runtime_does_not_start() {
    let (log, result) = reload_in(World { swap: (Err("restored".to_owned()), true), ..good_world() });
    let mut expected = start();
    expected.extend([
        "cancelled?",
        "validate",
        "swap",
        "progress 3\nrestored",
        "log reload failed",
        "cancelled?",
        "READY=1",
    ]);
    assert_eq!(log, expected);
    assert_eq!(result, Ok(()));

    let (lost_log, result) = reload_in(World { swap: (Err("restored".to_owned()), false), ..good_world() });
    assert_eq!(lost_log, log);
    assert_eq!(result, Err("restored".to_owned()));
}

#[test]
fn reload_ends_where_nobody_can_be_told() {
    for step in [0, 1, 7, 8, 10] {
        let (log, result) = reload_in(World { breaks: Some(step), ..good_world() });
        assert_eq!(result, Err("broken".to_owned()));
        assert_eq!(log.len(), step + 1);
    }
}

#[test]
fn reload_takes_no_notice_of_answers_it_did_not_ask_for() {
    let run = handle_reload_until(CODES, files());
    let run = run.tell(ReloadEvent::Cancelled(true));
    let run = run.tell(ReloadEvent::Swapped { result: Ok(()), running: true });
    let run = run.tell(ReloadEvent::Loaded(Ok(false)));
    assert!(matches!(run.action(), ReloadAction::Notify(Notice::Reloading)));
}

/// Carries a request to suspend out, with a failure at the action of this number.
fn suspend(breaks: Option<usize>) -> (Vec<String>, Result<(), String>) {
    let mut run = handle_suspend_compatibility(CODES, files());
    let mut log = Vec::new();
    loop {
        match run.action() {
            ReloadAction::Notify(notice) => log.push(notice.text().to_owned()),
            ReloadAction::WriteProgress { path, code, suffix } => {
                assert_eq!(path, b"/run/dae.progress");
                log.push(format!("progress {code}{suffix}"))
            }
            ReloadAction::RemoveAbortFile(path) => {
                assert_eq!(path, b"/run/dae.abort");
                log.push("remove abort".to_owned())
            }
            ReloadAction::Log(message) => log.push(format!("log {message}")),
            ReloadAction::Return(result) => return (log, result),
            other => panic!("unexpected action {other:?}"),
        }
        run = run.tell(if breaks == Some(log.len() - 1) {
            Err("broken".to_owned())
        } else {
            Ok(())
        });
    }
}

#[test]
fn suspend_is_turned_down() {
    let (log, result) = suspend(None);
    assert_eq!(
        log,
        vec![
            "RELOADING=1",
            "progress 1",
            "remove abort",
            "progress 3\nsuspend runtime transition is not implemented by Rust service contract",
            "log suspend rejected",
            "READY=1",
        ]
    );
    assert_eq!(result, Ok(()));
}

#[test]
fn suspend_ends_at_the_first_failure_but_for_the_abort_file() {
    for step in [0, 1, 3, 4, 5] {
        let (log, result) = suspend(Some(step));
        assert_eq!(log.len(), step + 1);
        assert_eq!(result, Err("broken".to_owned()));
    }
    let (log, result) = suspend(Some(2));
    assert_eq!(log.len(), 6);
    assert_eq!(result, Ok(()));
}

#[test]
fn reload_fails_exactly_where_both_starts_failed() {
    for (good, expected) in [
        (&[1, 2][..], Ok(())),
        (&[1], Ok(())),
        (&[2], Ok(())),
        (
            &[],
            Err("no 2\nrestore failed while restoring previous resident runtime: no 1".to_owned()),
        ),
    ] {
        let mut state = ResidentServiceState { runtime: Some(1u32), config: 1u32 };
        let result = swap_on(&mut state, 2, |config| {
            if good.contains(config) {
                Ok(*config)
            } else {
                Err(format!("no {config}"))
            }
        });
        let running = state.runtime.is_some();
        let (_, result) = reload_in(World { swap: (result, running), ..good_world() });
        assert_eq!(result, expected);
    }
}
