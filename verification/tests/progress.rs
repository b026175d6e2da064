//! The progress file and the wait for the end of a reload.

use dae_daemon::progress::{
    progress_content, read_progress, wait_for_reload_progress, PollAction, PollEvent, ReloadCodes,
    ReloadPoll,
};

fn codes() -> ReloadCodes {
    ReloadCodes { send: 0, processing: 1, done: 2, error: 3 }
}

const MILLI: u128 = 1_000_000;

/// Carries a wait out, on a clock that only the pauses of the wait move. `read` is told how many
/// milliseconds have gone by.
fn wait_with(
    path: &str,
    timeout_millis: Option<u128>,
    mut read: impl FnMut(u128) -> Result<Vec<u8>, String>,
) -> Result<String, String> {
    let timeout = timeout_millis.map(|millis| millis * MILLI);
    let mut poll = wait_for_reload_progress(codes(), path.as_bytes(), timeout);
    let mut now: u128 = 0;
    loop {
        let event = match poll.action() {
            PollAction::CheckClock => PollEvent::Elapsed(now * MILLI),
            PollAction::Sleep(millis) => {
                now += u128::from(millis);
                PollEvent::Slept
            }
            PollAction::ReadProgress(asked) => {
                assert_eq!(asked, path.as_bytes());
                PollEvent::Read(read(now))
            }
            PollAction::Return(result) => return result,
        };
        poll = poll.tell(event);
    }
}

#[test]
fn reload_progress_read_failure_times_out_with_context_instead_of_ok() {
    let err = wait_with("/tmp/root/progress-as-directory", Some(50), |_| {
        Err("Is a directory (os error 21)".to_owned())
    })
    .unwrap_err();
    assert!(err.contains("reload progress timed out"), "err: {err}");
    assert!(err.contains("failed to read"), "err: {err}");
}

#[test]
fn reload_progress_recovers_from_transient_read_failure() {
    let result = wait_with("/tmp/root/progress.late", Some(5_000), |now| {
        if now < 150 {
            Err("No such file or directory (os error 2)".to_owned())
        } else {
            Ok(vec![codes().done, b'\n', b'O', b'K'])
        }
    })
    .unwrap();
    assert_eq!(result, "OK\n");
}

#[test]
fn wait_recovers_from_many_reads_that_fail() {
    let mut failed = 0;
    let result = wait_with("/tmp/root/progress.late", Some(5_000), |now| {
        if now <= 3_000 {
            failed += 1;
            Err("No such file or directory (os error 2)".to_owned())
        } else {
            Ok(vec![codes().done, b'\n', b'O', b'K'])
        }
    });
    assert_eq!(result, Ok("OK\n".to_owned()));
    assert_eq!(failed, 15);
}

#[test]
fn reload_progress_returns_done_or_error_content() {
    assert_eq!(
        wait_with("/tmp/root/progress.done", Some(2_000), |_| {
            Ok(vec![codes().done, b'\n', b'O', b'K'])
        })
        .unwrap(),
        "OK\n"
    );
    let mut error_bytes = vec![codes().error, b'\n'];
    error_bytes.extend_from_slice(b"boom");
    let error = wait_with("/tmp/root/progress.error", Some(2_000), |_| Ok(error_bytes.clone()))
        .unwrap_err();
    assert!(error.contains("boom"), "error = {error}");
    assert_eq!(error, "reload failed on the daemon side: boom");
}

#[test]
fn reload_progress_times_out_while_still_processing() {
    let err = wait_with("/tmp/root/progress.processing", Some(50), |_| {
        Ok(vec![codes().processing, b'\n'])
    })
    .unwrap_err();
    assert!(err.contains("reload progress timed out"), "err: {err}");
    assert!(!err.contains("failed to read"), "err: {err}");
    assert_eq!(err, "reload progress timed out");
}

#[test]
fn wait_goes_on_for_ever_without_a_limit() {
    let result = wait_with("/run/progress", None, |now| {
        if now < 1_000_000 {
            Ok(vec![codes().send])
        } else {
            Ok(vec![codes().done])
        }
    });
    assert_eq!(result, Ok("\n".to_owned()));
}

#[test]
fn wait_without_any_time_reads_nothing() {
    let result = wait_with("/run/progress", Some(0), |_| panic!("nothing is to be read"));
    assert_eq!(result, Err("reload progress timed out".to_owned()));
}

#[test]
fn wait_is_over_at_the_limit_and_not_before() {
    let mut reads = 0;
    let result = wait_with("/run/progress", Some(400), |_| {
        reads += 1;
        Ok(vec![codes().processing])
    });
    assert!(result.is_err());
    assert_eq!(reads, 2);
    let mut reads = 0;
    let result = wait_with("/run/progress", Some(401), |_| {
        reads += 1;
        Ok(vec![codes().processing])
    });
    assert!(result.is_err());
    assert_eq!(reads, 3);
}

#[test]
fn timeout_names_the_last_read_that_failed() {
    let result = wait_with("/run/progress", Some(700), |now| match now {
        200 => Err("first".to_owned()),
        400 => Err("second".to_owned()),
        _ => Ok(vec![codes().processing]),
    });
    assert_eq!(
        result,
        Err("reload progress timed out: failed to read /run/progress: second".to_owned())
    );
}

#[test]
fn timeout_names_a_file_without_a_first_byte() {
    let result = wait_with("/run/progress", Some(100), |_| Ok(Vec::new()));
    assert_eq!(
        result,
        Err("reload progress timed out: unexpected format: /run/progress".to_owned())
    );
}

#[test]
fn wait_takes_no_notice_of_answers_it_did_not_ask_for() {
    let poll = wait_for_reload_progress(codes(), b"p", Some(1));
    let poll: ReloadPoll<String, Vec<u8>> = poll.tell(PollEvent::Read(Ok(vec![codes().done])));
    let poll = poll.tell(PollEvent::Slept);
    assert!(matches!(poll.action(), PollAction::CheckClock));
    let poll = poll.tell(PollEvent::Elapsed(0));
    assert!(matches!(poll.action(), PollAction::Sleep(200)));
    let poll = poll.tell(PollEvent::Elapsed(5));
    assert!(matches!(poll.action(), PollAction::Sleep(200)));
    let poll = poll.tell(PollEvent::Slept);
    assert!(matches!(poll.action(), PollAction::ReadProgress(_)));
    let poll = poll.tell(PollEvent::Read(Ok(vec![codes().done])));
    assert!(matches!(poll.action(), PollAction::Return(Ok(_))));
    let poll = poll.tell(PollEvent::Elapsed(5));
    assert!(matches!(poll.action(), PollAction::Return(Ok(_))));
}

#[test]
fn progress_is_read_back() {
    for (code, suffix, content) in [
        (2u8, "", ""),
        (3, "\n\n\nboom\n", "boom\n"),
        (0, "\n  x", "  x"),
        (255, "\nwä\u{1f600}", "wä\u{1f600}"),
    ] {
        let bytes = progress_content(code, suffix);
        assert_eq!(bytes[0], code);
        assert_eq!(&bytes[1..], suffix.as_bytes());
        assert_eq!(read_progress(b"p", Ok(bytes)), Ok((code, content.to_owned())));
    }
}

#[test]
fn progress_that_is_no_text_is_read_with_replacements() {
    let bytes = vec![3u8, b'\n', b'a', 0xff, 0xc3, b'b'];
    assert_eq!(read_progress(b"p", Ok(bytes)), Ok((3, "a\u{fffd}\u{fffd}b".to_owned())));
}

#[test]
fn progress_that_cannot_be_read_says_so() {
    assert_eq!(
        read_progress(b"/run/p", Err("gone".to_owned())),
        Err("failed to read /run/p: gone".to_owned())
    );
    assert_eq!(
        read_progress(b"/run/p\xff", Ok(Vec::new())),
        Err("unexpected format: /run/p\u{fffd}".to_owned())
    );
}

#[test]
fn stage_that_is_written_decides_the_wait() {
    for (code, ends) in [(0u8, false), (1, false), (2, true), (3, true), (7, false)] {
        let poll = wait_for_reload_progress(codes(), b"p", None)
            .tell(PollEvent::Elapsed(0))
            .tell(PollEvent::Slept)
            .tell(PollEvent::Read(Ok(progress_content(code, "\nword"))));
        match poll.action() {
            PollAction::Return(Ok(text)) => {
                assert_eq!((code, text.as_str()), (2, "word\n"));
            }
            PollAction::Return(Err(text)) => {
                assert_eq!((code, text.as_str()), (3, "reload failed on the daemon side: word"));
            }
            PollAction::CheckClock => assert!(!ends),
            other => panic!("unexpected action {other:?}"),
        }
        assert_eq!(ends, matches!(poll.action(), PollAction::Return(_)));
    }
}
