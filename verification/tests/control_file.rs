//! The replacement of control files.

use dae_daemon::control_file::{
    write_bytes_file, write_progress, write_text_file, ControlFileAction, ControlFileEvent,
    ControlFileRun, CONTROL_FILE_CREATE_ATTEMPTS, CONTROL_FILE_MODE,
};
use dae_daemon::utf8::text_of;

type Run = ControlFileRun<String, Vec<u8>>;

fn done(run: Run) -> Run {
    run.tell(ControlFileEvent::Done(Ok(())))
}

fn fail(run: Run) -> Run {
    run.tell(ControlFileEvent::Done(Err("broken".to_owned())))
}

/// What a run asks for, in a word and a path.
fn asked(run: &Run) -> (&'static str, String) {
    match run.action() {
        ControlFileAction::CreateDir(dir) => ("mkdir", text_of(&dir)),
        ControlFileAction::TakeSequence => ("number", String::new()),
        ControlFileAction::CreateTemp { path, .. } => ("create", text_of(&path)),
        ControlFileAction::SetMode { path, .. } => ("chmod", text_of(&path)),
        ControlFileAction::WriteContent { path, .. } => ("write", text_of(&path)),
        ControlFileAction::SyncFile(path) => ("sync", text_of(&path)),
        ControlFileAction::Rename { from, .. } => ("rename", text_of(&from)),
        ControlFileAction::OpenDir(dir) => ("opendir", text_of(&dir)),
        ControlFileAction::SyncDir(dir) => ("syncdir", text_of(&dir)),
        ControlFileAction::RemoveFile(path) => ("remove", text_of(&path)),
        ControlFileAction::Return(Ok(())) => ("ok", String::new()),
        ControlFileAction::Return(Err(e)) => ("err", e),
    }
}

fn is(run: &Run, word: &str, path: &str) {
    assert_eq!(asked(run), (asked(run).0, path.to_owned()));
    assert_eq!(asked(run).0, word);
}

/// A run that has just made its new file.
fn created() -> Run {
    let run = write_bytes_file(b"/run/dae/progress", b"\x02\nOK", 0o640, 99);
    let run = done(run);
    done(run.tell(ControlFileEvent::Sequence(5)))
}

const TEMP: &str = "/run/dae/.progress.tmp-99-5";

#[test]
fn control_file_is_replaced_step_by_step() {
    let run = write_bytes_file(b"/run/dae/progress", b"\x02\nOK", 0o640, 99);
    is(&run, "mkdir", "/run/dae");
    let run = done(run);
    is(&run, "number", "");
    let run = run.tell(ControlFileEvent::Sequence(5));
    match run.action() {
        ControlFileAction::CreateTemp { path, mode } => {
            assert_eq!((text_of(&path).as_str(), mode), (TEMP, 0o640));
        }
        other => panic!("unexpected action {other:?}"),
    }
    let run = done(run);
    match run.action() {
        ControlFileAction::SetMode { path, mode } => {
            assert_eq!((text_of(&path).as_str(), mode), (TEMP, 0o640));
        }
        other => panic!("unexpected action {other:?}"),
    }
    let run = done(run);
    match run.action() {
        ControlFileAction::WriteContent { path, content } => {
            assert_eq!((text_of(&path).as_str(), content.as_slice()), (TEMP, &b"\x02\nOK"[..]));
        }
        other => panic!("unexpected action {other:?}"),
    }
    let run = done(run);
    is(&run, "sync", TEMP);
    let run = done(run);
    match run.action() {
        ControlFileAction::Rename { from, to } => {
            assert_eq!(text_of(&from), TEMP);
            assert_eq!(text_of(&to), "/run/dae/progress");
        }
        other => panic!("unexpected action {other:?}"),
    }
    let run = done(run);
    is(&run, "opendir", "/run/dae");
    let run = done(run);
    is(&run, "syncdir", "/run/dae");
    let run = done(run);
    is(&run, "ok", "");
    is(&fail(run), "ok", "");
}

#[test]
fn control_file_that_fails_removes_the_new_file() {
    let mut run = created();
    for (step, message) in [
        ("chmod", format!("failed to chmod {TEMP}: broken")),
        ("write", format!("failed to write {TEMP}: broken")),
        ("sync", format!("failed to sync {TEMP}: broken")),
        (
            "rename",
            format!("failed to atomically replace /run/dae/progress with {TEMP}: broken"),
        ),
        ("opendir", "failed to open /run/dae: broken".to_owned()),
        ("syncdir", "failed to sync /run/dae: broken".to_owned()),
    ] {
        let mut failing = created();
        while asked(&failing).0 != step {
            failing = done(failing);
        }
        assert_eq!(asked(&run).0, step);
        let failing = fail(failing);
        is(&failing, "remove", TEMP);
        is(&done(failing), "err", &message);
        run = done(run);
    }
    let removal_fails = fail(fail(created()));
    is(&removal_fails, "err", &format!("failed to chmod {TEMP}: broken"));
}

#[test]
fn control_file_fails_early_without_a_new_file() {
    let run = write_text_file(b"/run/dae/ready", "READY=1\n", 0o644, 1);
    is(&fail(run), "err", "failed to create path /run/dae: broken");
    let run = done(write_text_file(b"/run/dae/ready", "READY=1\n", 0o644, 1));
    let run = fail(run.tell(ControlFileEvent::Sequence(1)));
    is(
        &run,
        "err",
        "failed to create temporary control file /run/dae/.ready.tmp-1-1: broken",
    );
}

#[test]
fn control_file_needs_a_name_that_is_text() {
    for (path, shown) in [
        (&b"/run/dae/.."[..], "/run/dae/.."),
        (b"/", "/"),
        (b"", ""),
        (b".", "."),
        (b"/run/\xff", "/run/\u{fffd}"),
    ] {
        let run = done(write_bytes_file(path, b"", 0o644, 1));
        is(&run, "err", &format!("control file has no UTF-8 leaf name: {shown}"));
    }
    let run = done(write_bytes_file(b"/\xff/leaf", b"", 0o644, 1));
    is(&run, "number", "");
}

#[test]
fn control_file_tries_a_bounded_number_of_names() {
    let mut run = done(write_bytes_file(b"/run/p", b"", 0o644, 7));
    for attempt in 0..CONTROL_FILE_CREATE_ATTEMPTS {
        is(&run, "number", "");
        run = run.tell(ControlFileEvent::Sequence(attempt as u64));
        is(&run, "create", &format!("/run/.p.tmp-7-{attempt}"));
        run = run.tell(ControlFileEvent::AlreadyExists);
    }
    assert_eq!(CONTROL_FILE_CREATE_ATTEMPTS, 32);
    is(
        &run,
        "err",
        "failed to reserve a temporary control file for /run/p after 32 attempts",
    );
}

#[test]
fn new_files_lie_beside_and_do_not_share_a_name() {
    for (path, one, other) in [
        ("p", ".p.tmp-3-1", ".p.tmp-3-11"),
        ("/p", "/.p.tmp-3-1", "/.p.tmp-3-11"),
        ("a/b/", "a/.b.tmp-3-1", "a/.b.tmp-3-11"),
    ] {
        let run = done(write_bytes_file(path.as_bytes(), b"", 0o644, 3));
        is(&run.tell(ControlFileEvent::Sequence(1)), "create", one);
        let run = done(write_bytes_file(path.as_bytes(), b"", 0o644, 3));
        is(&run.tell(ControlFileEvent::Sequence(11)), "create", other);
    }
}

fn written(mut run: Run) -> (Vec<u8>, u32) {
    loop {
        run = match run.action() {
            ControlFileAction::TakeSequence => run.tell(ControlFileEvent::Sequence(1)),
            ControlFileAction::WriteContent { content, .. } => return (content, run.mode),
            _ => done(run),
        };
    }
}

#[test]
fn text_and_progress_are_written_as_bytes() {
    assert_eq!(
        written(write_text_file(b"p", "wä", 0o600, 1)),
        ("wä".as_bytes().to_vec(), 0o600)
    );
    assert_eq!(
        written(write_progress(b"p", 3, "\nboom", 1)),
        (b"\x03\nboom".to_vec(), 0o644)
    );
    assert_eq!(CONTROL_FILE_MODE, 0o644);
}

#[test]
fn control_file_takes_no_notice_of_answers_it_did_not_ask_for() {
    let run = write_bytes_file(b"/run/p", b"", 0o644, 7);
    let run = run.tell(ControlFileEvent::AlreadyExists);
    let run = run.tell(ControlFileEvent::Sequence(9));
    is(&run, "mkdir", "/run");
}
