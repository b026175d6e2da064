//! The progress file of a reload: one byte that says how far the reload is, and a text.

use crate::text::{self, trim_leading_newlines};
use crate::utf8::{self, text_of};
use crate::views::{self, copy_text, join2, join4};
use vstd::prelude::*;
use vstd::slice::*;
use vstd::utf8::*;

verus! {

/// The bytes with which a progress file starts, one for each stage of a reload. The service and
/// the one who asks it to reload have to agree on them.
#[derive(Clone, Copy, Debug, PartialEq, Eq, Structural)]
pub struct ReloadCodes {
    /// A reload has been asked for.
    pub send: u8,
    /// The service is at it.
    pub processing: u8,
    /// The reload is over and has succeeded.
    pub done: u8,
    /// The reload is over and has failed.
    pub error: u8,
}

impl ReloadCodes {
    /// No two stages share a byte.
    pub open spec fn distinct(self) -> bool {
        &&& self.send != self.processing
        &&& self.send != self.done
        &&& self.send != self.error
        &&& self.processing != self.done
        &&& self.processing != self.error
        &&& self.done != self.error
    }

    /// `code` says that no reload is going on.
    pub open spec fn is_final(self, code: u8) -> bool {
        code == self.done || code == self.error
    }
}

/// What a progress file holds.
pub open spec fn progress_bytes(code: u8, suffix: Seq<char>) -> Seq<u8> {
    seq![code] + encode_utf8(suffix)
}

/// The content of a progress file.
pub fn progress_content(code: u8, suffix: &str) -> (content: Vec<u8>)
    ensures
        content@ == progress_bytes(code, suffix@),
{
    let mut content: Vec<u8> = vec![code];
    content.extend_from_slice(suffix.as_bytes());
    assert(content@ =~= progress_bytes(code, suffix@));
    content
}

/// What the progress file at `path` says, given what reading it came to.
pub open spec fn progress_said(path: Seq<u8>, read: Result<Seq<u8>, Seq<char>>) -> Result<
    (u8, Seq<char>),
    Seq<char>,
> {
    match read {
        Err(e) => Err("failed to read "@ + utf8::lossy_text(path) + ": "@ + e),
        Ok(bytes) => if bytes.len() == 0 {
            Err("unexpected format: "@ + utf8::lossy_text(path))
        } else {
            Ok((bytes[0], text::without_leading_newlines(utf8::lossy_text(bytes.drop_first()))))
        },
    }
}

/// The view of what a progress file says.
pub open spec fn said_view(said: Result<(u8, String), String>) -> Result<
    (u8, Seq<char>),
    Seq<char>,
> {
    match said {
        Ok((code, content)) => Ok((code, content@)),
        Err(e) => Err(e@),
    }
}

/// What the progress file at `path` says, given what reading it came to: the byte that it starts
/// with, and the text behind that without the line feeds at its front.
pub fn read_progress(path: &[u8], read: Result<Vec<u8>, String>) -> (said: Result<
    (u8, String),
    String,
>)
    ensures
        said_view(said) == progress_said(path@, views::bytes_view(read)),
{
    match read {
        Err(e) => Err(join4("failed to read ", text_of(path).as_str(), ": ", e.as_str())),
        Ok(bytes) => {
            if bytes.len() == 0 {
                return Err(join2("unexpected format: ", text_of(path).as_str()));
            }
            let code = bytes[0];
            let rest = slice_subrange(bytes.as_slice(), 1, bytes.len());
            assert(rest@ =~= bytes@.drop_first());
            Ok((code, trim_leading_newlines(text_of(rest).as_str())))
        },
    }
}

/// What is written to a progress file is read back from it: the same byte, and the text without
/// the line feeds at its front.
pub proof fn law_progress_is_read_back(path: Seq<u8>, code: u8, suffix: Seq<char>)
    ensures
        progress_said(path, Ok(progress_bytes(code, suffix))) == Ok::<_, Seq<char>>(
            (code, text::without_leading_newlines(suffix)),
        ),
{
    let bytes = progress_bytes(code, suffix);
    assert(bytes.drop_first() =~= encode_utf8(suffix));
    encode_utf8_valid_utf8(suffix);
    encode_utf8_decode_utf8(suffix);
}

/// Where the wait for the end of a reload stands. Texts are `T`.
#[derive(Debug)]
pub enum PollState<T> {
    /// The time that has gone by is wanted.
    Checking,
    /// A pause is going on.
    Sleeping,
    /// The progress file is being read.
    Reading,
    /// The wait is over.
    Finished(Result<T, T>),
}

/// The wait for the end of a reload. Texts are `T`, bytes are `B`.
#[derive(Debug)]
pub struct ReloadPoll<T, B> {
    /// The bytes of the stages.
    pub codes: ReloadCodes,
    /// The progress file.
    pub path: B,
    /// After how many nanoseconds to give up.
    pub timeout: Option<u128>,
    /// Why the last read that failed did.
    pub last_read_error: Option<T>,
    /// Where the wait stands.
    pub state: PollState<T>,
}

/// What the wait asks for.
#[derive(Debug)]
pub enum PollAction<T, B> {
    /// Say how many nanoseconds have gone by since the wait began.
    CheckClock,
    /// Let that many milliseconds go by.
    Sleep(u64),
    /// Read that file.
    ReadProgress(B),
    /// The wait is over, with this.
    Return(Result<T, T>),
}

/// What an action of the wait came to.
#[derive(Debug)]
pub enum PollEvent<T, B> {
    /// So many nanoseconds have gone by since the wait began.
    Elapsed(u128),
    /// The pause is over.
    Slept,
    /// What reading the progress file came to.
    Read(Result<B, T>),
}

/// The view of where a wait stands.
pub open spec fn poll_state_view(state: PollState<String>) -> PollState<Seq<char>> {
    match state {
        PollState::Checking => PollState::Checking,
        PollState::Sleeping => PollState::Sleeping,
        PollState::Reading => PollState::Reading,
        PollState::Finished(r) => PollState::Finished(views::text_view(r)),
    }
}

impl View for ReloadPoll<String, Vec<u8>> {
    type V = ReloadPoll<Seq<char>, Seq<u8>>;

    open spec fn view(&self) -> ReloadPoll<Seq<char>, Seq<u8>> {
        ReloadPoll {
            codes: self.codes,
            path: self.path@,
            timeout: self.timeout,
            last_read_error: views::maybe_view(self.last_read_error),
            state: poll_state_view(self.state),
        }
    }
}

impl View for PollAction<String, Vec<u8>> {
    type V = PollAction<Seq<char>, Seq<u8>>;

    open spec fn view(&self) -> PollAction<Seq<char>, Seq<u8>> {
        match self {
            PollAction::CheckClock => PollAction::CheckClock,
            PollAction::Sleep(millis) => PollAction::Sleep(*millis),
            PollAction::ReadProgress(path) => PollAction::ReadProgress(path@),
            PollAction::Return(r) => PollAction::Return(views::text_view(*r)),
        }
    }
}

impl View for PollEvent<String, Vec<u8>> {
    type V = PollEvent<Seq<char>, Seq<u8>>;

    open spec fn view(&self) -> PollEvent<Seq<char>, Seq<u8>> {
        match self {
            PollEvent::Elapsed(nanos) => PollEvent::Elapsed(*nanos),
            PollEvent::Slept => PollEvent::Slept,
            PollEvent::Read(r) => PollEvent::Read(views::bytes_view(*r)),
        }
    }
}

/// The message of a wait that has been given up.
pub open spec fn timeout_message(last_read_error: Option<Seq<char>>) -> Seq<char> {
    match last_read_error {
        Some(e) => "reload progress timed out: "@ + e,
        None => "reload progress timed out"@,
    }
}

impl ReloadPoll<Seq<char>, Seq<u8>> {
    /// A wait that has just begun.
    pub open spec fn started(codes: ReloadCodes, path: Seq<u8>, timeout: Option<u128>) -> Self {
        ReloadPoll { codes, path, timeout, last_read_error: None, state: PollState::Checking }
    }

    /// What the wait asks for.
    pub open spec fn asks(self) -> PollAction<Seq<char>, Seq<u8>> {
        match self.state {
            PollState::Checking => PollAction::CheckClock,
            PollState::Sleeping => PollAction::Sleep(200),
            PollState::Reading => PollAction::ReadProgress(self.path),
            PollState::Finished(r) => PollAction::Return(r),
        }
    }

    /// `nanos` are at least the time after which to give up.
    pub open spec fn expired(self, nanos: u128) -> bool {
        self.timeout matches Some(limit) && nanos >= limit
    }

    /// The wait after it has been told `event`. An event that answers nothing asked for changes
    /// nothing.
    pub open spec fn after(self, event: PollEvent<Seq<char>, Seq<u8>>) -> Self {
        match (self.state, event) {
            (PollState::Checking, PollEvent::Elapsed(nanos)) => ReloadPoll {
                state: if self.expired(nanos) {
                    PollState::Finished(Err(timeout_message(self.last_read_error)))
                } else {
                    PollState::Sleeping
                },
                ..self
            },
            (PollState::Sleeping, PollEvent::Slept) => ReloadPoll {
                state: PollState::Reading,
                ..self
            },
            (PollState::Reading, PollEvent::Read(read)) => match progress_said(self.path, read) {
                Ok((code, content)) => ReloadPoll {
                    state: if code == self.codes.done {
                        PollState::Finished(Ok(content + "\n"@))
                    } else if code == self.codes.error {
                        PollState::Finished(Err("reload failed on the daemon side: "@ + content))
                    } else {
                        PollState::Checking
                    },
                    ..self
                },
                Err(e) => ReloadPoll {
                    last_read_error: Some(e),
                    state: PollState::Checking,
                    ..self
                },
            },
            _ => self,
        }
    }

    /// The wait after it has been told all of `events`, one after the other.
    pub open spec fn after_all(self, events: Seq<PollEvent<Seq<char>, Seq<u8>>>) -> Self
        decreases events.len(),
    {
        if events.len() == 0 {
            self
        } else {
            self.after_all(events.drop_last()).after(events.last())
        }
    }
}

/// Begins to wait for the end of the reload that the progress file at `path` tells of, for at most
/// `timeout` nanoseconds where there is a limit.
pub fn wait_for_reload_progress(codes: ReloadCodes, path: &[u8], timeout: Option<u128>) -> (poll:
    ReloadPoll<String, Vec<u8>>)
    ensures
        poll@ == ReloadPoll::started(codes, path@, timeout),
{
    ReloadPoll {
        codes,
        path: slice_to_vec(path),
        timeout,
        last_read_error: None,
        state: PollState::Checking,
    }
}

impl ReloadPoll<String, Vec<u8>> {
    /// What the wait asks for.
    pub fn action(&self) -> (action: PollAction<String, Vec<u8>>)
        ensures
            action@ == self@.asks(),
    {
        match &self.state {
            PollState::Checking => PollAction::CheckClock,
            PollState::Sleeping => PollAction::Sleep(200),
            PollState::Reading => PollAction::ReadProgress(slice_to_vec(self.path.as_slice())),
            PollState::Finished(r) => PollAction::Return(copy_text(r)),
        }
    }

    /// Tells the wait what came of its action.
    pub fn tell(self, event: PollEvent<String, Vec<u8>>) -> (poll: Self)
        ensures
            poll@ == self@.after(event@),
    {
        let mut poll = self;
        match (&poll.state, event) {
            (PollState::Checking, PollEvent::Elapsed(nanos)) => {
                let expired = match poll.timeout {
                    Some(limit) => nanos >= limit,
                    None => false,
                };
                if expired {
                    let message = match &poll.last_read_error {
                        Some(e) => join2("reload progress timed out: ", e.as_str()),
                        None => "reload progress timed out".to_owned(),
                    };
                    poll.state = PollState::Finished(Err(message));
                } else {
                    poll.state = PollState::Sleeping;
                }
            },
            (PollState::Sleeping, PollEvent::Slept) => {
                poll.state = PollState::Reading;
            },
            (PollState::Reading, PollEvent::Read(read)) => {
                match read_progress(poll.path.as_slice(), read) {
                    Ok((code, content)) => {
                        if code == poll.codes.done {
                            poll.state = PollState::Finished(Ok(join2(content.as_str(), "\n")));
                        } else if code == poll.codes.error {
                            poll.state = PollState::Finished(
                                Err(join2("reload failed on the daemon side: ", content.as_str())),
                            );
                        } else {
                            poll.state = PollState::Checking;
                        }
                    },
                    Err(e) => {
                        poll.last_read_error = Some(e);
                        poll.state = PollState::Checking;
                    },
                }
            },
            _ => {},
        }
        poll
    }
}

impl ReloadPoll<Seq<char>, Seq<u8>> {
    /// At the event numbered `i`, the wait asked for the progress file, and it was read: it starts
    /// with `code` and goes on with `content`.
    pub open spec fn was_read(
        self,
        events: Seq<PollEvent<Seq<char>, Seq<u8>>>,
        i: int,
        code: u8,
        content: Seq<char>,
    ) -> bool {
        &&& 0 <= i < events.len()
        &&& self.after_all(events.take(i)).asks() == PollAction::<Seq<char>, Seq<u8>>::ReadProgress(
            self.path,
        )
        &&& events[i] matches PollEvent::Read(read) && progress_said(self.path, read) == Ok::<
            _,
            Seq<char>,
        >((code, content))
    }
}

impl ReloadPoll<Seq<char>, Seq<u8>> {
    /// The messages of the reads that failed among `events`, in order.
    pub open spec fn failed_reads(self, events: Seq<PollEvent<Seq<char>, Seq<u8>>>) -> Seq<
        Seq<char>,
    >
        decreases events.len(),
    {
        if events.len() == 0 {
            seq![]
        } else {
            let before = self.failed_reads(events.drop_last());
            match (self.after_all(events.drop_last()).state, events.last()) {
                (PollState::Reading, PollEvent::Read(read)) => match progress_said(
                    self.path,
                    read,
                ) {
                    Err(e) => before.push(e),
                    Ok(_) => before,
                },
                _ => before,
            }
        }
    }
}

proof fn lemma_poll_keeps_settings(
    poll: ReloadPoll<Seq<char>, Seq<u8>>,
    events: Seq<PollEvent<Seq<char>, Seq<u8>>>,
)
    ensures
        poll.after_all(events).codes == poll.codes,
        poll.after_all(events).path == poll.path,
        poll.after_all(events).timeout == poll.timeout,
    decreases events.len(),
{
    if events.len() > 0 {
        lemma_poll_keeps_settings(poll, events.drop_last());
    }
}

/// A wait ends well only where the progress file was read and said that the reload is over and has
/// succeeded, and what the wait gives is the text of that file. So a read that fails is never
/// taken for a success.
pub proof fn law_success_is_read_from_the_file(
    codes: ReloadCodes,
    path: Seq<u8>,
    timeout: Option<u128>,
    events: Seq<PollEvent<Seq<char>, Seq<u8>>>,
)
    ensures
        ({
            let start = ReloadPoll::started(codes, path, timeout);
            start.after_all(events).state matches PollState::Finished(Ok(given)) ==> exists|
                i: int,
                content: Seq<char>,
            | #[trigger]
                start.was_read(events, i, codes.done, content) && given == content + "\n"@
        }),
    decreases events.len(),
{
    let start = ReloadPoll::started(codes, path, timeout);
    if events.len() > 0 {
        let rest = events.drop_last();
        let n = events.len() - 1;
        law_success_is_read_from_the_file(codes, path, timeout, rest);
        lemma_poll_keeps_settings(start, rest);
        assert(events.take(n) =~= rest);
        let before = start.after_all(rest);
        if let PollState::Finished(Ok(given)) = start.after_all(events).state {
            if let PollState::Finished(_) = before.state {
                let (i, content) = choose|i: int, content: Seq<char>| #[trigger]
                    start.was_read(rest, i, codes.done, content) && given == content + "\n"@;
                assert(rest.take(i) =~= events.take(i));
                assert(start.was_read(events, i, codes.done, content));
            } else {
                let content = progress_said(path, events.last()->Read_0)->Ok_0.1;
                assert(start.was_read(events, n, codes.done, content));
            }
        }
    }
}

/// A wait fails only where the progress file was read and said that the reload has failed, or where
/// it was found that the time for the wait is over.
pub proof fn law_failure_is_read_or_timed_out(
    codes: ReloadCodes,
    path: Seq<u8>,
    timeout: Option<u128>,
    events: Seq<PollEvent<Seq<char>, Seq<u8>>>,
)
    ensures
        ({
            let start = ReloadPoll::started(codes, path, timeout);
            start.after_all(events).state matches PollState::Finished(Err(message)) ==> {
                ||| exists|i: int, content: Seq<char>| #[trigger]
                    start.was_read(events, i, codes.error, content) && message
                        == "reload failed on the daemon side: "@ + content
                ||| exists|i: int, nanos: u128|
                    0 <= i < events.len() && #[trigger] events[i] == PollEvent::<
                        Seq<char>,
                        Seq<u8>,
                    >::Elapsed(nanos) && #[trigger] start.expired(nanos)
            }
        }),
    decreases events.len(),
{
    let start = ReloadPoll::started(codes, path, timeout);
    if events.len() > 0 {
        let rest = events.drop_last();
        let n = events.len() - 1;
        law_failure_is_read_or_timed_out(codes, path, timeout, rest);
        lemma_poll_keeps_settings(start, rest);
        assert(events.take(n) =~= rest);
        let before = start.after_all(rest);
        if let PollState::Finished(Err(message)) = start.after_all(events).state {
            if let PollState::Finished(_) = before.state {
                if exists|i: int, content: Seq<char>| #[trigger]
                    start.was_read(rest, i, codes.error, content) && message
                        == "reload failed on the daemon side: "@ + content {
                    let (i, content) = choose|i: int, content: Seq<char>| #[trigger]
                        start.was_read(rest, i, codes.error, content) && message
                            == "reload failed on the daemon side: "@ + content;
                    assert(rest.take(i) =~= events.take(i));
                    assert(start.was_read(events, i, codes.error, content));
                } else {
                    let (i, nanos) = choose|i: int, nanos: u128|
                        0 <= i < rest.len() && #[trigger] rest[i] == PollEvent::<
                            Seq<char>,
                            Seq<u8>,
                        >::Elapsed(nanos) && #[trigger] start.expired(nanos);
                    assert(events[i] == rest[i]);
                }
            } else if let PollEvent::Elapsed(nanos) = events.last() {
                assert(events[n] == PollEvent::<Seq<char>, Seq<u8>>::Elapsed(nanos));
                assert(start.expired(nanos));
            } else {
                let content = progress_said(path, events.last()->Read_0)->Ok_0.1;
                assert(start.was_read(events, n, codes.error, content));
            }
        }
    }
}

/// A wait that is given up says why the last read that failed did, and says no such thing where
/// no read failed.
pub proof fn law_timeout_names_the_last_failed_read(
    codes: ReloadCodes,
    path: Seq<u8>,
    timeout: Option<u128>,
    events: Seq<PollEvent<Seq<char>, Seq<u8>>>,
    nanos: u128,
)
    ensures
        ({
            let start = ReloadPoll::started(codes, path, timeout);
            let poll = start.after_all(events);
            let failed = start.failed_reads(events);
            let last = if failed.len() == 0 {
                None
            } else {
                Some(failed.last())
            };
            &&& poll.last_read_error == last
            &&& poll.state is Checking && poll.expired(nanos) ==> poll.after(
                PollEvent::Elapsed(nanos),
            ).asks() == PollAction::<Seq<char>, Seq<u8>>::Return(Err(timeout_message(last)))
        }),
    decreases events.len(),
{
    if events.len() > 0 {
        law_timeout_names_the_last_failed_read(codes, path, timeout, events.drop_last(), nanos);
        lemma_poll_keeps_settings(ReloadPoll::started(codes, path, timeout), events.drop_last());
    }
}

/// What the service writes to the progress file decides the wait of the one who reads it: a success
/// or a failure ends it, with the text that was written, and any other stage lets it go on.
pub proof fn law_stage_decides_the_wait(
    poll: ReloadPoll<Seq<char>, Seq<u8>>,
    code: u8,
    suffix: Seq<char>,
)
    requires
        poll.codes.distinct(),
        poll.state is Reading,
    ensures
        ({
            let told = poll.after(PollEvent::Read(Ok(progress_bytes(code, suffix))));
            let content = text::without_leading_newlines(suffix);
            &&& code == poll.codes.done ==> told.asks() == PollAction::<
                Seq<char>,
                Seq<u8>,
            >::Return(Ok(content + "\n"@))
            &&& code == poll.codes.error ==> told.asks() == PollAction::<
                Seq<char>,
                Seq<u8>,
            >::Return(Err("reload failed on the daemon side: "@ + content))
            &&& !poll.codes.is_final(code) ==> told.asks() is CheckClock
        }),
{
    law_progress_is_read_back(poll.path, code, suffix);
}

/// A wait that looks at the clock goes on for another pause as long as less than its limit has gone
/// by, and for ever where it has none; as soon as its limit has gone by, it ends, with what the
/// last failed read said.
pub proof fn law_wait_ends_at_its_limit_and_not_before(
    poll: ReloadPoll<Seq<char>, Seq<u8>>,
    nanos: u128,
    limit: u128,
    e: Seq<char>,
)
    requires
        poll.asks() is CheckClock,
    ensures
        poll.timeout is None ==> poll.after(PollEvent::Elapsed(nanos)).asks()
            == PollAction::<Seq<char>, Seq<u8>>::Sleep(200),
        poll.timeout == Some(limit) && nanos < limit ==> poll.after(
            PollEvent::Elapsed(nanos),
        ).asks() == PollAction::<Seq<char>, Seq<u8>>::Sleep(200),
        poll.timeout == Some(limit) && nanos >= limit && poll.last_read_error is None
            ==> poll.after(PollEvent::Elapsed(nanos)).asks() == PollAction::<
            Seq<char>,
            Seq<u8>,
        >::Return(Err("reload progress timed out"@)),
        poll.timeout == Some(limit) && nanos >= limit && poll.last_read_error == Some(e)
            ==> poll.after(PollEvent::Elapsed(nanos)).asks() == PollAction::<
            Seq<char>,
            Seq<u8>,
        >::Return(Err("reload progress timed out: "@ + e)),
        poll.after(PollEvent::Elapsed(nanos)).last_read_error == poll.last_read_error,
{
}

/// Behind every pause the progress file is read, and behind every read that does not end the wait
/// the clock is looked at: the byte of success ends it with the text of the file and a line feed,
/// the byte of failure with the text of the file as the reason, and any other byte lets it go on;
/// so does a file that cannot be read or is empty, and only these two are kept in mind.
pub proof fn law_wait_goes_by_what_it_reads(
    poll: ReloadPoll<Seq<char>, Seq<u8>>,
    bytes: Seq<u8>,
    e: Seq<char>,
)
    ensures
        poll.asks() is Sleep ==> poll.after(PollEvent::Slept).asks() == PollAction::<
            Seq<char>,
            Seq<u8>,
        >::ReadProgress(poll.path) && poll.after(PollEvent::Slept).last_read_error
            == poll.last_read_error,
        poll.asks() is ReadProgress ==> ({
            let failed = poll.after(PollEvent::Read(Err(e)));
            &&& failed.asks() is CheckClock
            &&& failed.last_read_error == Some(
                "failed to read "@ + utf8::lossy_text(poll.path) + ": "@ + e,
            )
        }),
        poll.asks() is ReadProgress ==> ({
            let empty = poll.after(PollEvent::Read(Ok(seq![])));
            &&& empty.asks() is CheckClock
            &&& empty.last_read_error == Some("unexpected format: "@ + utf8::lossy_text(poll.path))
        }),
        poll.asks() is ReadProgress && bytes.len() > 0 ==> ({
            let next = poll.after(PollEvent::Read(Ok(bytes)));
            let content = text::without_leading_newlines(utf8::lossy_text(bytes.skip(1)));
            &&& next.last_read_error == poll.last_read_error
            &&& bytes[0] == poll.codes.done ==> next.asks() == PollAction::<
                Seq<char>,
                Seq<u8>,
            >::Return(Ok(content + "\n"@))
            &&& bytes[0] != poll.codes.done && bytes[0] == poll.codes.error ==> next.asks()
                == PollAction::<Seq<char>, Seq<u8>>::Return(
                Err("reload failed on the daemon side: "@ + content),
            )
            &&& bytes[0] != poll.codes.done && bytes[0] != poll.codes.error
                ==> next.asks() is CheckClock
        }),
{
    assert(bytes.len() > 0 ==> bytes.skip(1) =~= bytes.drop_first());
}

/// A wait looks at the clock first, with nothing kept in mind. What it waits for, and for how long,
/// never changes, and what does not answer its question changes nothing at all.
pub proof fn law_wait_keeps_its_settings(
    poll: ReloadPoll<Seq<char>, Seq<u8>>,
    event: PollEvent<Seq<char>, Seq<u8>>,
    codes: ReloadCodes,
    path: Seq<u8>,
    timeout: Option<u128>,
)
    ensures
        ({
            let first = ReloadPoll::started(codes, path, timeout);
            &&& first.asks() is CheckClock
            &&& first.codes == codes
            &&& first.path == path
            &&& first.timeout == timeout
            &&& first.last_read_error is None
        }),
        poll.after(event).codes == poll.codes,
        poll.after(event).path == poll.path,
        poll.after(event).timeout == poll.timeout,
        !(poll.asks() is CheckClock && event is Elapsed || poll.asks() is Sleep && event is Slept
            || poll.asks() is ReadProgress && event is Read) ==> poll.after(event) == poll,
{
}

/// What a progress file says is decided by its bytes: the first is the stage, and what the others
/// encode, without the line feeds at its front, is the text. A file without a byte, and one that
/// cannot be read, say nothing, and why not.
pub proof fn law_progress_file_says_its_bytes(path: Seq<u8>, bytes: Seq<u8>, e: Seq<char>)
    ensures
        bytes.len() > 0 ==> progress_said(path, Ok(bytes)) == Ok::<_, Seq<char>>(
            (bytes[0], text::without_leading_newlines(utf8::lossy_text(bytes.skip(1)))),
        ),
        progress_said(path, Ok(seq![])) == Err::<(u8, Seq<char>), _>(
            "unexpected format: "@ + utf8::lossy_text(path),
        ),
        progress_said(path, Err(e)) == Err::<(u8, Seq<char>), _>(
            "failed to read "@ + utf8::lossy_text(path) + ": "@ + e,
        ),
{
    assert(bytes.len() > 0 ==> bytes.skip(1) =~= bytes.drop_first());
}

/// A progress file holds the byte of the stage and then the text in UTF-8, and nothing else.
pub proof fn law_progress_file_holds_stage_and_text(code: u8, suffix: Seq<char>)
    ensures
        progress_bytes(code, suffix).len() == 1 + encode_utf8(suffix).len(),
        progress_bytes(code, suffix)[0] == code,
        progress_bytes(code, suffix).skip(1) == encode_utf8(suffix),
{
    assert(progress_bytes(code, suffix).skip(1) =~= encode_utf8(suffix));
}

/// What an action is shown to ask for is what it asks for, with everything that it holds.
pub proof fn law_action_is_shown_as_it_is(action: PollAction<String, Vec<u8>>)
    ensures
        match action {
            PollAction::CheckClock => action@ == PollAction::<Seq<char>, Seq<u8>>::CheckClock,
            PollAction::Sleep(millis) => action@ == PollAction::<Seq<char>, Seq<u8>>::Sleep(millis),
            PollAction::ReadProgress(path) => action@
                == PollAction::<Seq<char>, Seq<u8>>::ReadProgress(path@),
            PollAction::Return(r) => action@
                == PollAction::<Seq<char>, Seq<u8>>::Return(views::text_view(r)),
        },
{
}

/// What an event is shown to tell is what it tells, with everything that it holds.
pub proof fn law_event_is_shown_as_it_is(event: PollEvent<String, Vec<u8>>)
    ensures
        match event {
            PollEvent::Elapsed(nanos) => event@ == PollEvent::<Seq<char>, Seq<u8>>::Elapsed(nanos),
            PollEvent::Slept => event@ == PollEvent::<Seq<char>, Seq<u8>>::Slept,
            PollEvent::Read(r) => event@
                == PollEvent::<Seq<char>, Seq<u8>>::Read(views::bytes_view(r)),
        },
{
}

} // verus!
