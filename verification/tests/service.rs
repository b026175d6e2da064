//! The life of the service.

use dae_daemon::progress::ReloadCodes;
use dae_daemon::service::{run_resident_service, RunAction, RunEvent, RunOptions};
use dae_daemon::signals::SignalNumbers;
use dae_daemon::utf8::text_of;

fn options() -> RunOptions<Vec<u8>> {
    RunOptions {
        codes: ReloadCodes { send: 0, processing: 1, done: 2, error: 3 },
        signals: SignalNumbers { usr1: 10, usr2: 12, hup: 1, term: 15, int_: 2, quit: 3 },
        pid: 4_711,
        disable_sudo: false,
        disable_pidfile: false,
        config: b"/etc/dae/config.dae".to_vec(),
        progress_file: b"/run/dae.progress".to_vec(),
        pid_file: b"/run/dae.pid".to_vec(),
        ready_record_file: Some(b"/run/dae.ready".to_vec()),
    }
}

/// How the world around a service goes.
struct World {
    user: u32,
    load: Result<bool, String>,
    /// The action that fails, by its words.
    breaks: &'static str,
    signals: Vec<Result<i32, String>>,
}

fn good(signals: &[i32]) -> World {
    World {
        user: 0,
        load: Ok(false),
        breaks: "",
        signals: signals.iter().map(|signal| Ok(*signal)).collect(),
    }
}

/// Carries a service out, and gives what it did and how it ended.
fn serve(options: RunOptions<Vec<u8>>, world: World) -> (Vec<String>, Result<(), String>) {
    let mut run = run_resident_service(options);
    let mut log: Vec<String> = Vec::new();
    let mut signals = world.signals.into_iter();
    loop {
        let words = match run.action() {
            RunAction::QueryUser => "user".to_owned(),
            RunAction::BlockSignals => "block".to_owned(),
            RunAction::LoadConfig(path) => {
                assert_eq!(path, b"/etc/dae/config.dae");
                "load".to_owned()
            }
            RunAction::InstallEventLog => "event log".to_owned(),
            RunAction::WaitForNetwork => "network".to_owned(),
            RunAction::StartRuntime { asset_dir } => {
                assert_eq!(asset_dir, b"/etc/dae");
                "runtime".to_owned()
            }
            RunAction::SpawnWorker => "worker".to_owned(),
            RunAction::WritePidFile { path, content, mode } => {
                assert_eq!(mode, 0o644);
                format!("pid {} {content}", text_of(&path))
            }
            RunAction::WriteProgress { path, code, suffix } => {
                assert_eq!(path, b"/run/dae.progress");
                format!("progress {code}{suffix}")
            }
            RunAction::WriteReadyRecord { path, content, mode } => {
                assert_eq!(mode, 0o644);
                format!("record {} {content}", text_of(&path))
            }
            RunAction::Log(message) => format!("log {message}"),
            RunAction::Notify(notice) => notice.text().to_owned(),
            RunAction::AwaitSignal => "await".to_owned(),
            RunAction::RequestReload => "reload".to_owned(),
            RunAction::HandleSuspend => "suspend".to_owned(),
            RunAction::ShutdownWorker => "shutdown".to_owned(),
            RunAction::RemovePidFile(path) => format!("unlink {}", text_of(&path)),
            RunAction::Return(result) => return (log, result),
        };
        let event = match words.as_str() {
            "user" => RunEvent::User(world.user),
            "load" => RunEvent::Loaded(world.load.clone()),
            "await" => RunEvent::Signal(signals.next().unwrap()),
            other if !world.breaks.is_empty() && other.starts_with(world.breaks) => {
                RunEvent::Done(Err("broken".to_owned()))
            }
            _ => RunEvent::Done(Ok(())),
        };
        log.push(words);
        run = run.tell(event);
    }
}

const START: [&str; 11] = [
    "block",
    "load",
    "event log",
    "network",
    "runtime",
    "worker",
    "pid /run/dae.pid 4711",
    "progress 2",
    "record /run/dae.ready READY=1\n",
    "log service ready",
    "READY=1",
];

const STOP: [&str; 4] = ["STOPPING=1", "log service stopping", "shutdown", "unlink /run/dae.pid"];

#[test]
fn service_starts_obeys_and_ends() {
    for stop in [15, 2, 3] {
        let (log, result) = serve(options(), good(&[10, 1, 12, 40, 10, stop]));
        let mut expected = START.to_vec();
        expected.extend([
            "await", "reload", "await", "await", "suspend", "await", "await", "reload", "await",
        ]);
        expected.extend(STOP);
        assert_eq!(log, expected);
        assert_eq!(result, Ok(()));
    }
}

#[test]
fn service_that_leaves_things_out() {
    let (log, result) = serve(
        RunOptions { disable_pidfile: true, ready_record_file: None, ..options() },
        World { load: Ok(true), ..good(&[15]) },
    );
    assert_eq!(
        log,
        vec![
            "block",
            "load",
            "event log",
            "runtime",
            "worker",
            "progress 2",
            "log service ready",
            "READY=1",
            "await",
            "STOPPING=1",
            "log service stopping",
            "shutdown",
        ]
    );
    assert_eq!(result, Ok(()));
}

#[test]
fn service_wants_the_superuser_where_it_may_not_become_it() {
    let strict = || RunOptions { disable_sudo: true, ..options() };
    let (log, result) = serve(strict(), World { user: 1_000, ..good(&[]) });
    assert_eq!(log, vec!["user"]);
    assert_eq!(
        result,
        Err("auto-sudo is disabled and current user is not root".to_owned())
    );
    let (log, result) = serve(strict(), good(&[15]));
    assert_eq!(log[..2], ["user", "block"]);
    assert_eq!(result, Ok(()));
}

#[test]
fn service_that_does_not_come_to_its_worker() {
    for (breaks, steps, message) in [
        ("block", 1, "broken"),
        ("network", 4, "waiting for network before subscriptions failed: broken"),
        ("runtime", 5, "broken"),
        ("worker", 6, "broken"),
    ] {
        let (log, result) = serve(options(), World { breaks, ..good(&[]) });
        assert_eq!(log, START[..steps]);
        assert_eq!(result, Err(message.to_owned()));
    }
    let (log, result) =
        serve(options(), World { load: Err("bad".to_owned()), ..good(&[]) });
    assert_eq!(log, START[..2]);
    assert_eq!(result, Err("resident run config validation failed: bad".to_owned()));
}

#[test]
fn service_that_does_not_come_up_leaves_nothing_behind() {
    for (breaks, steps) in
        [("pid", 7), ("progress", 8), ("record", 9), ("log service ready", 10), ("READY", 11)]
    {
        let (log, result) = serve(options(), World { breaks, ..good(&[]) });
        let mut expected = START[..steps].to_vec();
        expected.extend(["shutdown", "unlink /run/dae.pid"]);
        assert_eq!(log, expected);
        assert_eq!(result, Err("broken".to_owned()));
        let (log, _) = serve(
            RunOptions { disable_pidfile: true, ..options() },
            World { breaks: "progress", ..good(&[]) },
        );
        assert_eq!(log.last().unwrap(), "shutdown");
    }
}

#[test]
fn service_that_breaks_off() {
    for (breaks, signal) in [("reload", 10), ("suspend", 12)] {
        let (log, result) = serve(options(), World { breaks, ..good(&[signal]) });
        assert_eq!(log.last().unwrap(), breaks);
        assert_eq!(result, Err("broken".to_owned()));
    }
    let (log, result) = serve(
        options(),
        World { signals: vec![Err("no signal".to_owned())], ..good(&[]) },
    );
    assert_eq!(log.last().unwrap(), "await");
    assert_eq!(result, Err("no signal".to_owned()));
}

#[test]
fn service_goes_down_whoever_can_be_told() {
    for breaks in ["STOPPING", "log service stopping", "unlink"] {
        let (log, result) = serve(options(), World { breaks, ..good(&[15]) });
        assert_eq!(log[log.len() - 4..], STOP);
        assert_eq!(result, Ok(()));
    }
    let (log, result) = serve(options(), World { breaks: "shutdown", ..good(&[15]) });
    assert_eq!(log[log.len() - 4..], STOP);
    assert_eq!(result, Err("broken".to_owned()));
}

#[test]
fn service_installs_the_event_log_whatever_comes_of_it() {
    let (log, result) = serve(options(), World { breaks: "event log", ..good(&[15]) });
    assert_eq!(log[..11], START);
    assert_eq!(result, Ok(()));
}
