//! Requests to reload.

use dae_daemon::client::{
    reload_resident_service, ClientAction, ClientEvent, ClientRun, ReloadRequest,
};
use dae_daemon::progress::{progress_content, PollAction, PollEvent, ReloadCodes};

type Run = ClientRun<String, Vec<u8>>;

const CODES: ReloadCodes = ReloadCodes { send: 0, processing: 1, done: 2, error: 3 };

fn request(pid: Option<i32>, abort_connections: bool) -> ReloadRequest<Vec<u8>> {
    ReloadRequest {
        codes: CODES,
        pid,
        pid_file: b"/run/dae.pid".to_vec(),
        progress_file: b"/run/dae.progress".to_vec(),
        abort_file: b"/run/dae.abort".to_vec(),
        abort_connections,
        timeout: Some(1_000_000_000),
    }
}

fn ended(run: &Run) -> Result<String, String> {
    match run.action() {
        ClientAction::Return(result) => result,
        other => panic!("unexpected action {other:?}"),
    }
}

/// The request once the claim is held and the progress file showed nothing.
fn quiet(pid: Option<i32>, abort: bool) -> Run {
    reload_resident_service(request(pid, abort))
        .tell(ClientEvent::Claimed(Ok(true)))
        .tell(ClientEvent::Progress(Err("not there".to_owned())))
}

#[test]
fn request_that_succeeds() {
    let run = reload_resident_service(request(None, true));
    assert!(matches!(run.action(), ClientAction::ReadPidFile(path) if path == b"/run/dae.pid"));
    let run = run.tell(ClientEvent::PidText(Ok("77\n".to_owned())));
    assert!(matches!(run.action(), ClientAction::Claim(path) if path == b"/run/dae.progress"));
    let run = run.tell(ClientEvent::Claimed(Ok(true)));
    assert!(
        matches!(run.action(), ClientAction::ReadProgress(path) if path == b"/run/dae.progress")
    );
    let run = run.tell(ClientEvent::Progress(Ok(vec![CODES.done])));
    assert!(matches!(
        run.action(),
        ClientAction::WriteAbortFile { path, content, mode: 0o644 }
            if path == b"/run/dae.abort" && content.is_empty()
    ));
    let run = run.tell(ClientEvent::Done(Ok(())));
    assert!(matches!(
        run.action(),
        ClientAction::WriteProgress { path, code: 0, suffix }
            if path == b"/run/dae.progress" && suffix.is_empty()
    ));
    let run = run.tell(ClientEvent::Done(Ok(())));
    assert!(matches!(run.action(), ClientAction::Signal(77)));
    let run = run.tell(ClientEvent::Done(Ok(())));
    assert!(matches!(run.action(), ClientAction::Wait(PollAction::CheckClock)));
    let run = run.tell(ClientEvent::Waited(PollEvent::Elapsed(0)));
    assert!(matches!(run.action(), ClientAction::Wait(PollAction::Sleep(200))));
    let run = run.tell(ClientEvent::Waited(PollEvent::Slept));
    assert!(matches!(
        run.action(),
        ClientAction::Wait(PollAction::ReadProgress(path)) if path == b"/run/dae.progress"
    ));
    let run = run.tell(ClientEvent::Waited(PollEvent::Read(Ok(b"\x02\nOK".to_vec()))));
    assert_eq!(ended(&run), Ok("OK\n".to_owned()));
}

#[test]
fn request_that_is_given_up() {
    let run = quiet(Some(5), false);
    assert!(matches!(run.action(), ClientAction::WriteProgress { .. }));
    let run = run.tell(ClientEvent::Done(Ok(())));
    assert!(matches!(run.action(), ClientAction::Signal(5)));
    let run = run
        .tell(ClientEvent::Done(Ok(())))
        .tell(ClientEvent::Waited(PollEvent::Elapsed(1_000_000_000)));
    assert_eq!(ended(&run), Err("reload progress timed out".to_owned()));
}

#[test]
fn request_refuses_what_is_no_process() {
    for pid in [0, -1, i32::MIN] {
        assert_eq!(
            ended(&reload_resident_service(request(Some(pid), false))),
            Err(format!("refusing to signal non-positive pid {pid}"))
        );
    }
    let run = reload_resident_service(request(None, false))
        .tell(ClientEvent::PidText(Ok("-3".to_owned())));
    assert_eq!(
        ended(&run),
        Err("pid file /run/dae.pid contains non-positive pid -3".to_owned())
    );
}

const BUSY: &str = "/run/dae.progress shows another reload operation is in progress.\n";

#[test]
fn request_is_turned_away_while_another_goes_on() {
    let run =
        reload_resident_service(request(Some(5), true)).tell(ClientEvent::Claimed(Ok(false)));
    assert_eq!(ended(&run), Ok(BUSY.to_owned()));
    assert_eq!(ended(&run.tell(ClientEvent::Done(Ok(())))), Ok(BUSY.to_owned()));
    for (code, away) in [(0u8, true), (1, true), (2, false), (3, false), (9, true)] {
        let run = reload_resident_service(request(Some(5), true))
            .tell(ClientEvent::Claimed(Ok(true)))
            .tell(ClientEvent::Progress(Ok(vec![code])));
        if away {
            assert_eq!(ended(&run), Ok(BUSY.to_owned()));
        } else {
            assert!(matches!(run.action(), ClientAction::WriteAbortFile { .. }));
        }
    }
}

#[test]
fn request_goes_on_without_a_progress_file() {
    assert!(matches!(quiet(Some(5), true).action(), ClientAction::WriteAbortFile { .. }));
    let run = reload_resident_service(request(Some(5), false))
        .tell(ClientEvent::Claimed(Ok(true)))
        .tell(ClientEvent::Progress(Ok(Vec::new())));
    assert!(matches!(run.action(), ClientAction::WriteProgress { .. }));
}

#[test]
fn request_ends_at_the_first_failure() {
    let broken = || "broken".to_owned();
    let run = reload_resident_service(request(Some(5), true))
        .tell(ClientEvent::Claimed(Err(broken())));
    assert_eq!(ended(&run), Err(broken()));
    let run = quiet(Some(5), true).tell(ClientEvent::Done(Err(broken())));
    assert_eq!(ended(&run), Err(broken()));
    let run = quiet(Some(5), false).tell(ClientEvent::Done(Err(broken())));
    assert_eq!(ended(&run), Err(broken()));
    let run = quiet(Some(5), false)
        .tell(ClientEvent::Done(Ok(())))
        .tell(ClientEvent::Done(Err(broken())));
    assert_eq!(ended(&run), Err(broken()));
}

#[test]
fn stage_admits_or_turns_away_the_next_request() {
    for (code, admitted) in [
        (CODES.send, false),
        (CODES.processing, false),
        (CODES.done, true),
        (CODES.error, true),
    ] {
        let run = reload_resident_service(request(Some(5), false))
            .tell(ClientEvent::Claimed(Ok(true)))
            .tell(ClientEvent::Progress(Ok(progress_content(code, "\nword"))));
        assert_eq!(admitted, matches!(run.action(), ClientAction::WriteProgress { .. }));
    }
}
