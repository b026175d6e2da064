//! The file that names the process, signals, notices, the log of the service, and the runtime.

use dae_daemon::notify::{notify_systemd, Notice, NotifyAction, NotifyRun};
use dae_daemon::pid_file::read_pid_file;
use dae_daemon::runtime::{
    swap_on, swap_runtime_with_restore, validate_resident_runtime_reload_config,
    ResidentServiceState, SwapAction, SwapConfig, SwapEvent,
};
use dae_daemon::service_log::{log_event, LogAction, LogRun};
use dae_daemon::signals::{
    block_service_signals, service_signal, service_signals, wait_service_signal, ServiceSignal,
    SignalNumbers,
};
use dae_daemon::utf8::text_of;

#[test]
fn pid_is_read_back() {
    for pid in [1u32, 42, 4_194_304, 2_147_483_647] {
        assert_eq!(read_pid_file(b"/run/dae.pid", Ok(format!("{pid}"))), Ok(pid as i32));
        assert_eq!(read_pid_file(b"/run/dae.pid", Ok(format!(" {pid}\n"))), Ok(pid as i32));
    }
}

#[test]
fn pid_that_is_none_is_refused() {
    let read = |text: &str| read_pid_file(b"/run/dae.pid", Ok(text.to_owned())).unwrap_err();
    assert_eq!(
        read(""),
        "failed to parse pid file /run/dae.pid: cannot parse integer from empty string"
    );
    assert_eq!(
        read("12x"),
        "failed to parse pid file /run/dae.pid: invalid digit found in string"
    );
    assert_eq!(
        read("2147483648"),
        "failed to parse pid file /run/dae.pid: number too large to fit in target type"
    );
    assert_eq!(
        read("-2147483649"),
        "failed to parse pid file /run/dae.pid: number too small to fit in target type"
    );
    assert_eq!(read("0"), "pid file /run/dae.pid contains non-positive pid 0");
    assert_eq!(read("-5\n"), "pid file /run/dae.pid contains non-positive pid -5");
    assert_eq!(
        read_pid_file(b"/run/dae.pid", Err("gone".to_owned())),
        Err("failed to read pid file /run/dae.pid: gone".to_owned())
    );
}

fn numbers() -> SignalNumbers {
    SignalNumbers {
        usr1: libc::SIGUSR1,
        usr2: libc::SIGUSR2,
        hup: libc::SIGHUP,
        term: libc::SIGTERM,
        int_: libc::SIGINT,
        quit: libc::SIGQUIT,
    }
}

#[test]
fn signals_steer_the_service() {
    let n = numbers();
    assert_eq!(service_signal(n, libc::SIGUSR1), ServiceSignal::Reload);
    assert_eq!(service_signal(n, libc::SIGUSR2), ServiceSignal::Suspend);
    assert_eq!(service_signal(n, libc::SIGHUP), ServiceSignal::Ignore);
    for stop in [libc::SIGTERM, libc::SIGINT, libc::SIGQUIT] {
        assert_eq!(service_signal(n, stop), ServiceSignal::Stop);
    }
    let taken = service_signals(n);
    assert_eq!(
        taken,
        vec![
            libc::SIGUSR1,
            libc::SIGUSR2,
            libc::SIGHUP,
            libc::SIGTERM,
            libc::SIGINT,
            libc::SIGQUIT
        ]
    );
    for other in 0..100 {
        if !taken.contains(&other) {
            assert_eq!(service_signal(n, other), ServiceSignal::Ignore);
        }
    }
}

#[test]
fn signal_calls_that_fail_say_so() {
    assert_eq!(block_service_signals(0), Ok(()));
    assert_eq!(
        block_service_signals(22),
        Err("failed to block resident service signals".to_owned())
    );
    assert_eq!(wait_service_signal(0, 15), Ok(15));
    assert_eq!(
        wait_service_signal(22, 15),
        Err("failed to wait for resident service signal: 22".to_owned())
    );
    assert_eq!(
        wait_service_signal(-1, 0),
        Err("failed to wait for resident service signal: -1".to_owned())
    );
}

#[test]
fn notices_have_their_words() {
    assert_eq!(Notice::Ready.text(), "READY=1");
    assert_eq!(Notice::Reloading.text(), "RELOADING=1");
    assert_eq!(Notice::Stopping.text(), "STOPPING=1");
}

type Sending = NotifyRun<String, Vec<u8>>;

/// Carries a message out, with a failure at the action of this number, and gives what it did.
fn send(mut run: Sending, breaks: Option<usize>) -> (Vec<String>, Result<(), String>) {
    let mut log = Vec::new();
    loop {
        let words = match run.action() {
            NotifyAction::CreateSocket => "socket".to_owned(),
            NotifyAction::ParseName(name) => format!("name {}", text_of(&name)),
            NotifyAction::SendToName(notice) => format!("send {}", notice.text()),
            NotifyAction::SendToPath { path, notice } => format!("send {path} {}", notice.text()),
            NotifyAction::Return(result) => return (log, result),
        };
        let outcome = if breaks == Some(log.len()) { Err("broken".to_owned()) } else { Ok(()) };
        log.push(words);
        run = run.tell(outcome);
    }
}

#[test]
fn notices_go_to_the_address_that_is_set() {
    let ready = |address: Option<&str>, abstract_names: bool| {
        send(notify_systemd(address, abstract_names, Notice::Ready), None)
    };
    assert_eq!(ready(None, true), (vec![], Ok(())));
    assert_eq!(
        ready(Some("/run/systemd/notify"), true),
        (vec!["socket".to_owned(), "send /run/systemd/notify READY=1".to_owned()], Ok(()))
    );
    assert_eq!(
        ready(Some(""), false),
        (vec!["socket".to_owned(), "send  READY=1".to_owned()], Ok(()))
    );
    for (address, name) in [("@/org/ä", "/org/ä"), ("@", ""), ("@@", "@")] {
        assert_eq!(
            ready(Some(address), true),
            (
                vec!["socket".to_owned(), format!("name {name}"), "send READY=1".to_owned()],
                Ok(())
            )
        );
    }
    assert_eq!(
        ready(Some("@x"), false),
        (
            vec!["socket".to_owned()],
            Err("abstract systemd notify sockets are unsupported on this platform".to_owned())
        )
    );
}

#[test]
fn notices_that_are_lost_say_why() {
    let lost = |address: &str, step: usize| {
        let run = notify_systemd(Some(address), true, Notice::Stopping);
        let (log, result) = send(run, Some(step));
        assert_eq!(log.len(), step + 1);
        result.unwrap_err()
    };
    assert_eq!(lost("@x", 0), "failed to create notify socket: broken");
    assert_eq!(lost("@x", 1), "failed to parse abstract notify socket: broken");
    assert_eq!(lost("@x", 2), "failed to notify systemd: broken");
    assert_eq!(lost("x", 0), "failed to create notify socket: broken");
    assert_eq!(lost("x", 1), "failed to notify systemd: broken");
    let vain = notify_systemd(Some("@x"), false, Notice::Stopping);
    assert_eq!(send(vain, Some(0)).1, Err("failed to create notify socket: broken".to_owned()));
}

/// Carries a message to the log out, with a failure at the action of this number.
fn append(
    mut run: LogRun<String, Vec<u8>>,
    breaks: Option<usize>,
) -> (Vec<String>, Result<(), String>) {
    let mut log = Vec::new();
    loop {
        let words = match run.action() {
            LogAction::CreateDir(dir) => format!("mkdir {}", text_of(&dir)),
            LogAction::Open(path) => format!("open {}", text_of(&path)),
            LogAction::Write(line) => format!("write {line}"),
            LogAction::Return(result) => return (log, result),
        };
        let outcome = if breaks == Some(log.len()) { Err("broken".to_owned()) } else { Ok(()) };
        log.push(words);
        run = run.tell(outcome);
    }
}

#[test]
fn log_lines_carry_the_process() {
    assert_eq!(append(log_event(None, false, 7, "service ready"), None), (vec![], Ok(())));
    assert_eq!(
        append(log_event(Some(b"/var/log/dae.log"), false, 4_711, "service ready"), None),
        (
            vec![
                "mkdir /var/log".to_owned(),
                "open /var/log/dae.log".to_owned(),
                "write 4711 service ready\n".to_owned(),
            ],
            Ok(())
        )
    );
    assert_eq!(
        append(log_event(Some(b"dae.log"), true, 4_711, "service ready"), None).0,
        vec!["mkdir ", "open dae.log", "write service ready\n"]
    );
    assert_eq!(
        append(log_event(Some(b"/"), true, 1, "m"), None).0,
        vec!["open /", "write m\n"]
    );
}

#[test]
fn log_lines_that_are_lost_say_why() {
    for (step, message) in [
        (0, "failed to create log dir /var/log: broken"),
        (1, "failed to open log /var/log/dae.log: broken"),
        (2, "failed to write log /var/log/dae.log: broken"),
    ] {
        let run = log_event(Some(b"/var/log/dae.log"), false, 1, "m");
        let (log, result) = append(run, Some(step));
        assert_eq!(log.len(), step + 1);
        assert_eq!(result, Err(message.to_owned()));
    }
}

#[test]
fn config_is_checked_before_the_runtime_is_replaced() {
    let lan = |config: &u32| vec![*config];
    let wan = |config: &u32| {
        if *config == 0 {
            Err("no outside".to_owned())
        } else {
            Ok(*config + 1)
        }
    };
    let validate = |lan: &Vec<u32>, wan: &u32, name: &str| {
        if lan[0] + 1 == *wan && lan[0] == 5 {
            Ok(())
        } else {
            Err(format!("{name}: {lan:?} {wan}"))
        }
    };
    assert_eq!(validate_resident_runtime_reload_config(&5, lan, wan, validate), Ok(()));
    assert_eq!(
        validate_resident_runtime_reload_config(&0, lan, wan, validate),
        Err("resident reload rejected before current runtime swap: no outside".to_owned())
    );
    assert_eq!(
        validate_resident_runtime_reload_config(&6, lan, wan, validate),
        Err("resident reload rejected before current runtime swap: [6] 7".to_owned())
    );
}

/// A runtime of which there may be only one at a time.
struct Only<'a> {
    name: String,
    alive: &'a std::cell::Cell<u32>,
}

impl Drop for Only<'_> {
    fn drop(&mut self) {
        self.alive.set(self.alive.get() - 1);
    }
}

/// Replaces the runtime of configuration 1 by one of configuration 2, where only the configurations
/// in `good` start. Gives the runtime, the configuration, what the replacement came to, and with
/// which configurations a start was tried.
fn swap(good: &[u32]) -> (Option<String>, u32, Result<(), String>, Vec<u32>) {
    let alive = std::cell::Cell::new(1u32);
    let old = Only { name: "old".to_owned(), alive: &alive };
    let mut state = ResidentServiceState { runtime: Some(old), config: 1u32 };
    let mut tried = Vec::new();
    let outcome = swap_on(&mut state, 2, |config| {
        assert_eq!(alive.get(), 0);
        tried.push(*config);
        if good.contains(config) {
            alive.set(alive.get() + 1);
            Ok(Only { name: format!("runtime {config}"), alive: &alive })
        } else {
            Err(format!("no runtime {config}"))
        }
    });
    assert_eq!(alive.get() == 1, state.runtime.is_some());
    let runtime = state.runtime.as_ref().map(|runtime| runtime.name.clone());
    (runtime, state.config, outcome, tried)
}

#[test]
fn replacement_without_a_runtime_starts_one() {
    let mut state = ResidentServiceState { runtime: None, config: 1u32 };
    assert_eq!(swap_on(&mut state, 2, |config| Ok(format!("runtime {config}"))), Ok(()));
    assert_eq!((state.runtime.as_deref(), state.config), (Some("runtime 2"), 2));
}

#[test]
fn state_of_the_service_takes_its_steps() {
    let mut state = ResidentServiceState { runtime: Some('a'), config: 1u32 };
    state.drop_runtime();
    assert_eq!((state.runtime, state.config), (None, 1));
    state.keep_runtime('b');
    assert_eq!((state.runtime, state.config), (Some('b'), 1));
    state.settle(2, SwapConfig::Previous);
    assert_eq!((state.runtime, state.config), (Some('b'), 1));
    state.settle(2, SwapConfig::Next);
    assert_eq!((state.runtime, state.config), (Some('b'), 2));
}

#[test]
fn runtime_and_config_stay_together() {
    assert_eq!(swap(&[1, 2]), (Some("runtime 2".to_owned()), 2, Ok(()), vec![2]));
    assert_eq!(
        swap(&[1]),
        (
            Some("runtime 1".to_owned()),
            1,
            Err("no runtime 2\nrestore: restored previous resident runtime".to_owned()),
            vec![2, 1]
        )
    );
    assert_eq!(
        swap(&[]),
        (
            None,
            1,
            Err("no runtime 2\nrestore failed while restoring previous resident runtime: \
                 no runtime 1"
                .to_owned()),
            vec![2, 1]
        )
    );
}

#[test]
fn old_runtime_is_gone_before_the_next_one_starts() {
    let run = swap_runtime_with_restore();
    assert!(matches!(run.action(), SwapAction::DropRuntime));
    let run = run.tell(SwapEvent::Started(Ok(())));
    assert!(matches!(run.action(), SwapAction::DropRuntime));
    let run = run.tell(SwapEvent::Dropped);
    assert!(matches!(run.action(), SwapAction::Start(SwapConfig::Next)));
    let run = run.tell(SwapEvent::Dropped);
    assert!(matches!(run.action(), SwapAction::Start(SwapConfig::Next)));
}

#[test]
fn runtime_is_started_twice_at_most() {
    for first in [Ok(()), Err("first".to_owned())] {
        for second in [Ok(()), Err("second".to_owned())] {
            let mut run = swap_runtime_with_restore().tell(SwapEvent::Dropped);
            let mut starts = Vec::new();
            for outcome in [first.clone(), second.clone(), Err("third".to_owned())] {
                if let SwapAction::Start(config) = run.action() {
                    starts.push(config);
                }
                run = run.tell(SwapEvent::Started(outcome));
            }
            if first.is_ok() {
                assert_eq!(starts, vec![SwapConfig::Next]);
            } else {
                assert_eq!(starts, vec![SwapConfig::Next, SwapConfig::Previous]);
            }
            assert!(matches!(run.action(), SwapAction::Return { .. }));
        }
    }
}
