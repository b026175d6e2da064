//! How a running service is asked to reload.

use crate::control_file::CONTROL_FILE_MODE;
use crate::decimal::{self, signed_decimal_text};
use crate::pid_file::{self, read_pid_file};
use crate::progress::{
    self, PollAction, PollEvent, PollState, ReloadCodes, ReloadPoll, read_progress,
    wait_for_reload_progress,
};
use crate::utf8::{self, text_of};
use crate::views::{self, copy_bytes, copy_text, join2};
use vstd::prelude::*;
use vstd::slice::*;

verus! {

/// What is asked of the service, and where it is to be found. Bytes are `B`.
#[derive(Debug)]
pub struct ReloadRequest<B> {
    /// The bytes of the stages.
    pub codes: ReloadCodes,
    /// The process of the service, where that is known.
    pub pid: Option<i32>,
    /// The file that names the process of the service.
    pub pid_file: B,
    /// The progress file.
    pub progress_file: B,
    /// The file that asks for connections to be cut.
    pub abort_file: B,
    /// Connections are to be cut.
    pub abort_connections: bool,
    /// After how many nanoseconds to give up waiting.
    pub timeout: Option<u128>,
}

/// Where the request stands. Texts are `T`, bytes are `B`.
#[derive(Debug)]
pub enum ClientState<T, B> {
    /// The file that names the process is being read.
    ReadingPid,
    /// The claim to the reload is being laid.
    Claiming { pid: i32 },
    /// The progress file is being read.
    ReadingProgress { pid: i32 },
    /// The file that asks for connections to be cut is being written.
    WritingAbort { pid: i32 },
    /// The progress file is being written.
    WritingProgress { pid: i32 },
    /// The service is being told.
    Signalling { pid: i32 },
    /// The end of the reload is being waited for.
    Waiting { poll: ReloadPoll<T, B> },
    /// The request is over.
    Finished(Result<T, T>),
}

/// A request to reload. Texts are `T`, bytes are `B`.
#[derive(Debug)]
pub struct ClientRun<T, B> {
    /// What is asked.
    pub request: ReloadRequest<B>,
    /// Where the request stands.
    pub state: ClientState<T, B>,
}

/// What the request asks for. Texts are `T`, bytes are `B`.
#[derive(Debug)]
pub enum ClientAction<T, B> {
    /// Read this file as text.
    ReadPidFile(B),
    /// Lay claim to the reload that this progress file tells of, and hold it to the end.
    Claim(B),
    /// Read this file.
    ReadProgress(B),
    /// Write this text to the file that asks for connections to be cut, with these access rights.
    WriteAbortFile { path: B, content: T, mode: u32 },
    /// Write the progress file.
    WriteProgress { path: B, code: u8, suffix: T },
    /// Send this process the signal to reload.
    Signal(i32),
    /// Do this while the end of the reload is waited for.
    Wait(PollAction<T, B>),
    /// The request is over, with this.
    Return(Result<T, T>),
}

/// What an action of the request came to. Texts are `T`, bytes are `B`.
#[derive(Debug)]
pub enum ClientEvent<T, B> {
    /// The text of the file that names the process.
    PidText(Result<T, T>),
    /// Whether the claim is held.
    Claimed(Result<bool, T>),
    /// The content of the progress file.
    Progress(Result<B, T>),
    /// The action succeeded or failed.
    Done(Result<(), T>),
    /// What came of an action while the end of the reload is waited for.
    Waited(PollEvent<T, B>),
}

impl View for ReloadRequest<Vec<u8>> {
    type V = ReloadRequest<Seq<u8>>;

    open spec fn view(&self) -> ReloadRequest<Seq<u8>> {
        ReloadRequest {
            codes: self.codes,
            pid: self.pid,
            pid_file: self.pid_file@,
            progress_file: self.progress_file@,
            abort_file: self.abort_file@,
            abort_connections: self.abort_connections,
            timeout: self.timeout,
        }
    }
}

/// The view of where a request stands.
pub open spec fn client_state_view(state: ClientState<String, Vec<u8>>) -> ClientState<
    Seq<char>,
    Seq<u8>,
> {
    match state {
        ClientState::ReadingPid => ClientState::ReadingPid,
        ClientState::Claiming { pid } => ClientState::Claiming { pid },
        ClientState::ReadingProgress { pid } => ClientState::ReadingProgress { pid },
        ClientState::WritingAbort { pid } => ClientState::WritingAbort { pid },
        ClientState::WritingProgress { pid } => ClientState::WritingProgress { pid },
        ClientState::Signalling { pid } => ClientState::Signalling { pid },
        ClientState::Waiting { poll } => ClientState::Waiting { poll: poll@ },
        ClientState::Finished(r) => ClientState::Finished(views::text_view(r)),
    }
}

impl View for ClientRun<String, Vec<u8>> {
    type V = ClientRun<Seq<char>, Seq<u8>>;

    open spec fn view(&self) -> ClientRun<Seq<char>, Seq<u8>> {
        ClientRun { request: self.request@, state: client_state_view(self.state) }
    }
}

impl View for ClientAction<String, Vec<u8>> {
    type V = ClientAction<Seq<char>, Seq<u8>>;

    open spec fn view(&self) -> ClientAction<Seq<char>, Seq<u8>> {
        match self {
            ClientAction::ReadPidFile(path) => ClientAction::ReadPidFile(path@),
            ClientAction::Claim(path) => ClientAction::Claim(path@),
            ClientAction::ReadProgress(path) => ClientAction::ReadProgress(path@),
            ClientAction::WriteAbortFile { path, content, mode } => ClientAction::WriteAbortFile {
                path: path@,
                content: content@,
                mode: *mode,
            },
            ClientAction::WriteProgress { path, code, suffix } => ClientAction::WriteProgress {
                path: path@,
                code: *code,
                suffix: suffix@,
            },
            ClientAction::Signal(pid) => ClientAction::Signal(*pid),
            ClientAction::Wait(action) => ClientAction::Wait(action@),
            ClientAction::Return(r) => ClientAction::Return(views::text_view(*r)),
        }
    }
}

impl View for ClientEvent<String, Vec<u8>> {
    type V = ClientEvent<Seq<char>, Seq<u8>>;

    open spec fn view(&self) -> ClientEvent<Seq<char>, Seq<u8>> {
        match self {
            ClientEvent::PidText(r) => ClientEvent::PidText(views::text_view(*r)),
            ClientEvent::Claimed(r) => ClientEvent::Claimed(views::number_view(*r)),
            ClientEvent::Progress(r) => ClientEvent::Progress(views::bytes_view(*r)),
            ClientEvent::Done(r) => ClientEvent::Done(views::done_view(*r)),
            ClientEvent::Waited(event) => ClientEvent::Waited(event@),
        }
    }
}

/// What is said where another reload goes on.
pub open spec fn busy_message(progress_file: Seq<u8>) -> Seq<char> {
    utf8::lossy_text(progress_file) + " shows another reload operation is in progress.\n"@
}

/// The progress file could be read, and says that a reload goes on.
pub open spec fn shows_reload(
    request: ReloadRequest<Seq<u8>>,
    read: Result<Seq<u8>, Seq<char>>,
) -> bool {
    progress::progress_said(request.progress_file, read) matches Ok((code, _))
        && !request.codes.is_final(code)
}

impl ClientRun<Seq<char>, Seq<u8>> {
    /// A request that has just been made.
    pub open spec fn started(request: ReloadRequest<Seq<u8>>) -> Self {
        ClientRun {
            request,
            state: match request.pid {
                Some(pid) => if pid > 0 {
                    ClientState::Claiming { pid }
                } else {
                    ClientState::Finished(
                        Err(
                            "refusing to signal non-positive pid "@ + decimal::signed_decimal(
                                pid as int,
                            ),
                        ),
                    )
                },
                None => ClientState::ReadingPid,
            },
        }
    }

    /// The same request at another point.
    pub open spec fn at(self, state: ClientState<Seq<char>, Seq<u8>>) -> Self {
        ClientRun { state, ..self }
    }

    /// The request where an action that has to succeed came to `done`.
    pub open spec fn must(
        self,
        done: Result<(), Seq<char>>,
        next: ClientState<Seq<char>, Seq<u8>>,
    ) -> Self {
        match done {
            Ok(()) => self.at(next),
            Err(e) => self.at(ClientState::Finished(Err(e))),
        }
    }

    /// What the request asks for.
    pub open spec fn asks(self) -> ClientAction<Seq<char>, Seq<u8>> {
        match self.state {
            ClientState::ReadingPid => ClientAction::ReadPidFile(self.request.pid_file),
            ClientState::Claiming { pid } => ClientAction::Claim(self.request.progress_file),
            ClientState::ReadingProgress { pid } => ClientAction::ReadProgress(
                self.request.progress_file,
            ),
            ClientState::WritingAbort { pid } => ClientAction::WriteAbortFile {
                path: self.request.abort_file,
                content: seq![],
                mode: CONTROL_FILE_MODE,
            },
            ClientState::WritingProgress { pid } => ClientAction::WriteProgress {
                path: self.request.progress_file,
                code: self.request.codes.send,
                suffix: seq![],
            },
            ClientState::Signalling { pid } => ClientAction::Signal(pid),
            ClientState::Waiting { poll } => match poll.asks() {
                PollAction::Return(r) => ClientAction::Return(r),
                action => ClientAction::Wait(action),
            },
            ClientState::Finished(r) => ClientAction::Return(r),
        }
    }

    /// The request after it has been told `event`. An event that answers nothing asked for changes
    /// nothing.
    pub open spec fn after(self, event: ClientEvent<Seq<char>, Seq<u8>>) -> Self {
        match (self.state, event) {
            (ClientState::ReadingPid, ClientEvent::PidText(read)) => self.at(
                match pid_file::pid_said(self.request.pid_file, read) {
                    Ok(pid) => ClientState::Claiming { pid },
                    Err(e) => ClientState::Finished(Err(e)),
                },
            ),
            (ClientState::Claiming { pid }, ClientEvent::Claimed(claimed)) => self.at(
                match claimed {
                    Ok(true) => ClientState::ReadingProgress { pid },
                    Ok(false) => ClientState::Finished(
                        Ok(busy_message(self.request.progress_file)),
                    ),
                    Err(e) => ClientState::Finished(Err(e)),
                },
            ),
            (ClientState::ReadingProgress { pid }, ClientEvent::Progress(read)) => self.at(
                if shows_reload(self.request, read) {
                    ClientState::Finished(Ok(busy_message(self.request.progress_file)))
                } else if self.request.abort_connections {
                    ClientState::WritingAbort { pid }
                } else {
                    ClientState::WritingProgress { pid }
                },
            ),
            (ClientState::WritingAbort { pid }, ClientEvent::Done(done)) => self.must(
                done,
                ClientState::WritingProgress { pid },
            ),
            (ClientState::WritingProgress { pid }, ClientEvent::Done(done)) => self.must(
                done,
                ClientState::Signalling { pid },
            ),
            (ClientState::Signalling { pid }, ClientEvent::Done(done)) => self.must(
                done,
                ClientState::Waiting {
                    poll: ReloadPoll::started(
                        self.request.codes,
                        self.request.progress_file,
                        self.request.timeout,
                    ),
                },
            ),
            (ClientState::Waiting { poll }, ClientEvent::Waited(event)) => self.at(
                ClientState::Waiting { poll: poll.after(event) },
            ),
            _ => self,
        }
    }

    /// The request after it has been told all of `events`, one after the other.
    pub open spec fn after_all(self, events: Seq<ClientEvent<Seq<char>, Seq<u8>>>) -> Self
        decreases events.len(),
    {
        if events.len() == 0 {
            self
        } else {
            self.after_all(events.drop_last()).after(events.last())
        }
    }

    /// At the event numbered `i`, the request asked for `action` and was told `event`.
    pub open spec fn told(
        self,
        events: Seq<ClientEvent<Seq<char>, Seq<u8>>>,
        i: int,
        action: ClientAction<Seq<char>, Seq<u8>>,
        event: ClientEvent<Seq<char>, Seq<u8>>,
    ) -> bool {
        &&& 0 <= i < events.len()
        &&& self.after_all(events.take(i)).asks() == action
        &&& events[i] == event
    }

    /// At some point the request asked for `action` and was told `event`.
    pub open spec fn did(
        self,
        events: Seq<ClientEvent<Seq<char>, Seq<u8>>>,
        action: ClientAction<Seq<char>, Seq<u8>>,
        event: ClientEvent<Seq<char>, Seq<u8>>,
    ) -> bool {
        exists|i: int| self.told(events, i, action, event)
    }
}

/// Where a request goes on when an action that has to succeed came to `done`.
fn must(done: Result<(), String>, next: ClientState<String, Vec<u8>>) -> (state: ClientState<
    String,
    Vec<u8>,
>)
    ensures
        client_state_view(state) == (match done {
            Ok(()) => client_state_view(next),
            Err(e) => ClientState::Finished(Err(e@)),
        }),
{
    match done {
        Ok(()) => next,
        Err(e) => ClientState::Finished(Err(e)),
    }
}

/// Begins to ask a running service to reload.
pub fn reload_resident_service(request: ReloadRequest<Vec<u8>>) -> (run: ClientRun<String, Vec<u8>>)
    ensures
        run@ == ClientRun::started(request@),
{
    let state: ClientState<String, Vec<u8>> = match request.pid {
        Some(pid) => {
            if pid > 0 {
                ClientState::Claiming { pid }
            } else {
                ClientState::Finished(
                    Err(
                        join2(
                            "refusing to signal non-positive pid ",
                            signed_decimal_text(pid).as_str(),
                        ),
                    ),
                )
            }
        },
        None => ClientState::ReadingPid,
    };
    ClientRun { request, state }
}

impl ClientRun<String, Vec<u8>> {
    /// What the request asks for.
    pub fn action(&self) -> (action: ClientAction<String, Vec<u8>>)
        ensures
            action@ == self@.asks(),
    {
        match &self.state {
            ClientState::ReadingPid => ClientAction::ReadPidFile(
                copy_bytes(&self.request.pid_file),
            ),
            ClientState::Claiming { pid } => ClientAction::Claim(
                copy_bytes(&self.request.progress_file),
            ),
            ClientState::ReadingProgress { pid } => ClientAction::ReadProgress(
                copy_bytes(&self.request.progress_file),
            ),
            ClientState::WritingAbort { pid } => ClientAction::WriteAbortFile {
                path: copy_bytes(&self.request.abort_file),
                content: String::new(),
                mode: CONTROL_FILE_MODE,
            },
            ClientState::WritingProgress { pid } => ClientAction::WriteProgress {
                path: copy_bytes(&self.request.progress_file),
                code: self.request.codes.send,
                suffix: String::new(),
            },
            ClientState::Signalling { pid } => ClientAction::Signal(*pid),
            ClientState::Waiting { poll } => match poll.action() {
                PollAction::Return(r) => ClientAction::Return(r),
                action => ClientAction::Wait(action),
            },
            ClientState::Finished(r) => ClientAction::Return(copy_text(r)),
        }
    }

    /// Tells the request what came of its action.
    pub fn tell(self, event: ClientEvent<String, Vec<u8>>) -> (run: Self)
        ensures
            run@ == self@.after(event@),
    {
        let request = self.request;
        let state: ClientState<String, Vec<u8>> = match (self.state, event) {
            (ClientState::ReadingPid, ClientEvent::PidText(read)) => {
                match read_pid_file(request.pid_file.as_slice(), read) {
                    Ok(pid) => ClientState::Claiming { pid },
                    Err(e) => ClientState::Finished(Err(e)),
                }
            },
            (ClientState::Claiming { pid }, ClientEvent::Claimed(claimed)) => match claimed {
                Ok(true) => ClientState::ReadingProgress { pid },
                Ok(false) => ClientState::Finished(Ok(busy_text(request.progress_file.as_slice()))),
                Err(e) => ClientState::Finished(Err(e)),
            },
            (ClientState::ReadingProgress { pid }, ClientEvent::Progress(read)) => {
                let goes_on = match read_progress(request.progress_file.as_slice(), read) {
                    Ok((code, content)) => code != request.codes.done && code
                        != request.codes.error,
                    Err(e) => false,
                };
                if goes_on {
                    ClientState::Finished(Ok(busy_text(request.progress_file.as_slice())))
                } else if request.abort_connections {
                    ClientState::WritingAbort { pid }
                } else {
                    ClientState::WritingProgress { pid }
                }
            },
            (ClientState::WritingAbort { pid }, ClientEvent::Done(done)) => must(
                done,
                ClientState::WritingProgress { pid },
            ),
            (ClientState::WritingProgress { pid }, ClientEvent::Done(done)) => must(
                done,
                ClientState::Signalling { pid },
            ),
            (ClientState::Signalling { pid }, ClientEvent::Done(done)) => must(
                done,
                ClientState::Waiting {
                    poll: wait_for_reload_progress(
                        request.codes,
                        request.progress_file.as_slice(),
                        request.timeout,
                    ),
                },
            ),
            (ClientState::Waiting { poll }, ClientEvent::Waited(event)) => ClientState::Waiting {
                poll: poll.tell(event),
            },
            (other, _) => other,
        };
        ClientRun { request, state }
    }
}

/// What is said where another reload goes on.
fn busy_text(progress_file: &[u8]) -> (message: String)
    ensures
        message@ == busy_message(progress_file@),
{
    join2(
        text_of(progress_file).as_str(),
        " shows another reload operation is in progress.\n",
    )
}

impl ClientRun<Seq<char>, Seq<u8>> {
    /// The claim to the reload is held.
    pub open spec fn claimed(self, events: Seq<ClientEvent<Seq<char>, Seq<u8>>>) -> bool {
        self.did(
            events,
            ClientAction::Claim(self.request.progress_file),
            ClientEvent::Claimed(Ok(true)),
        )
    }

    /// The progress file has been looked at, and showed no reload.
    pub open spec fn found_quiet(self, events: Seq<ClientEvent<Seq<char>, Seq<u8>>>) -> bool {
        exists|read: Result<Seq<u8>, Seq<char>>|
            !shows_reload(self.request, read) && #[trigger] self.did(
                events,
                ClientAction::ReadProgress(self.request.progress_file),
                ClientEvent::Progress(read),
            )
    }

    /// The progress file says that a reload has been asked for.
    pub open spec fn marked(self, events: Seq<ClientEvent<Seq<char>, Seq<u8>>>) -> bool {
        self.did(
            events,
            ClientAction::WriteProgress {
                path: self.request.progress_file,
                code: self.request.codes.send,
                suffix: seq![],
            },
            ClientEvent::Done(Ok(())),
        )
    }

    /// The file that asks for connections to be cut has been written, where they are to be cut.
    pub open spec fn abort_asked(self, events: Seq<ClientEvent<Seq<char>, Seq<u8>>>) -> bool {
        self.request.abort_connections ==> self.did(
            events,
            ClientAction::WriteAbortFile {
                path: self.request.abort_file,
                content: seq![],
                mode: CONTROL_FILE_MODE,
            },
            ClientEvent::Done(Ok(())),
        )
    }

    /// The service has been told to reload.
    pub open spec fn signalled(self, events: Seq<ClientEvent<Seq<char>, Seq<u8>>>) -> bool {
        exists|pid: i32|
            pid > 0 && #[trigger] self.did(
                events,
                ClientAction::Signal(pid),
                ClientEvent::Done(Ok(())),
            )
    }

    /// What has happened when a request stands at `state`.
    pub open spec fn came_by(
        self,
        events: Seq<ClientEvent<Seq<char>, Seq<u8>>>,
        state: ClientState<Seq<char>, Seq<u8>>,
    ) -> bool {
        match state {
            ClientState::ReadingPid => true,
            ClientState::Claiming { pid } => pid > 0,
            ClientState::ReadingProgress { pid } => pid > 0 && self.claimed(events),
            ClientState::WritingAbort { pid } => pid > 0 && self.claimed(events)
                && self.found_quiet(events),
            ClientState::WritingProgress { pid } => pid > 0 && self.claimed(events)
                && self.found_quiet(events) && self.abort_asked(events),
            ClientState::Signalling { pid } => pid > 0 && self.claimed(events) && self.found_quiet(
                events,
            ) && self.abort_asked(events) && self.marked(events),
            ClientState::Waiting { poll } => {
                &&& self.signalled(events)
                &&& poll.codes == self.request.codes
                &&& poll.path == self.request.progress_file
                &&& poll.timeout == self.request.timeout
                &&& poll.state matches PollState::Finished(Ok(given)) ==> self.success_was_read(
                    events,
                    given,
                )
            },
            ClientState::Finished(Ok(given)) => given == busy_message(self.request.progress_file),
            ClientState::Finished(Err(_)) => true,
        }
    }

    /// The progress file was read while the end of the reload was waited for, said that it has
    /// succeeded, and had the text that is `given`.
    pub open spec fn success_was_read(
        self,
        events: Seq<ClientEvent<Seq<char>, Seq<u8>>>,
        given: Seq<char>,
    ) -> bool {
        exists|read: Result<Seq<u8>, Seq<char>>|
            says_success(self.request, read, given) && #[trigger] self.did(
                events,
                ClientAction::Wait(PollAction::ReadProgress(self.request.progress_file)),
                ClientEvent::Waited(PollEvent::Read(read)),
            )
    }
}

/// The progress file could be read, says that the reload has succeeded, and has the text `given`.
pub open spec fn says_success(
    request: ReloadRequest<Seq<u8>>,
    read: Result<Seq<u8>, Seq<char>>,
    given: Seq<char>,
) -> bool {
    progress::progress_said(request.progress_file, read) matches Ok((code, content)) && code
        == request.codes.done && given == content + "\n"@
}

/// What a request did before an event it has done after it too.
proof fn lemma_did_stays(
    run: ClientRun<Seq<char>, Seq<u8>>,
    events: Seq<ClientEvent<Seq<char>, Seq<u8>>>,
)
    requires
        events.len() > 0,
    ensures
        forall|action: ClientAction<Seq<char>, Seq<u8>>, event: ClientEvent<Seq<char>, Seq<u8>>|
            run.did(events.drop_last(), action, event) ==> #[trigger] run.did(
                events,
                action,
                event,
            ),
        run.did(events, run.after_all(events.drop_last()).asks(), events.last()),
{
    let rest = events.drop_last();
    let n = events.len() - 1;
    assert forall|
        action: ClientAction<Seq<char>, Seq<u8>>,
        event: ClientEvent<Seq<char>, Seq<u8>>,
    |
        run.did(rest, action, event) implies #[trigger] run.did(events, action, event) by {
        let i = choose|i: int| run.told(rest, i, action, event);
        assert(rest.take(i) =~= events.take(i));
        assert(run.told(events, i, action, event));
    }
    assert(events.take(n) =~= rest);
    assert(run.told(events, n, run.after_all(rest).asks(), events.last()));
}

/// What has happened stays so.
proof fn lemma_came_by_stays(
    run: ClientRun<Seq<char>, Seq<u8>>,
    events: Seq<ClientEvent<Seq<char>, Seq<u8>>>,
    state: ClientState<Seq<char>, Seq<u8>>,
)
    requires
        events.len() > 0,
        run.came_by(events.drop_last(), state),
    ensures
        run.came_by(events, state),
{
    let rest = events.drop_last();
    lemma_did_stays(run, events);
    if run.found_quiet(rest) {
        let read = choose|read: Result<Seq<u8>, Seq<char>>|
            !shows_reload(run.request, read) && #[trigger] run.did(
                rest,
                ClientAction::ReadProgress(run.request.progress_file),
                ClientEvent::Progress(read),
            );
        assert(run.did(
            events,
            ClientAction::ReadProgress(run.request.progress_file),
            ClientEvent::Progress(read),
        ));
        assert(run.found_quiet(events));
    }
    if run.signalled(rest) {
        let pid = choose|pid: i32|
            pid > 0 && #[trigger] run.did(
                rest,
                ClientAction::Signal(pid),
                ClientEvent::Done(Ok(())),
            );
        assert(run.did(events, ClientAction::Signal(pid), ClientEvent::Done(Ok(()))));
        assert(run.signalled(events));
    }
    if let ClientState::Waiting { poll } = state {
        if let PollState::Finished(Ok(given)) = poll.state {
            let read = choose|read: Result<Seq<u8>, Seq<char>>|
                says_success(run.request, read, given) && #[trigger] run.did(
                    rest,
                    ClientAction::Wait(PollAction::ReadProgress(run.request.progress_file)),
                    ClientEvent::Waited(PollEvent::Read(read)),
                );
            assert(run.did(
                events,
                ClientAction::Wait(PollAction::ReadProgress(run.request.progress_file)),
                ClientEvent::Waited(PollEvent::Read(read)),
            ));
            assert(run.success_was_read(events, given));
        }
    }
}

/// However a request came to where it stands, what has to have happened has.
proof fn lemma_history(
    request: ReloadRequest<Seq<u8>>,
    events: Seq<ClientEvent<Seq<char>, Seq<u8>>>,
)
    ensures
        ({
            let run = ClientRun::started(request);
            &&& run.after_all(events).request == request
            &&& run.came_by(events, run.after_all(events).state)
        }),
    decreases events.len(),
{
    let run = ClientRun::started(request);
    if events.len() > 0 {
        let rest = events.drop_last();
        let before = run.after_all(rest);
        let now = run.after_all(events);
        lemma_history(request, rest);
        lemma_came_by_stays(run, events, before.state);
        lemma_did_stays(run, events);
        let action = before.asks();
        let event = events.last();
        assert(run.did(events, action, event));
        if let ClientEvent::Done(Ok(unit)) = event {
            assert(unit == ());
            assert(event == ClientEvent::<Seq<char>, Seq<u8>>::Done(Ok(())));
            if let ClientState::Signalling { pid } = before.state {
                assert(run.signalled(events));
            }
        }
        if let ClientEvent::PidText(read) = event {
            pid_file::law_pid_is_positive(request.pid_file, read);
        }
        if let ClientState::ReadingProgress { pid } = before.state {
            if let ClientEvent::Progress(read) = event {
                if !shows_reload(request, read) {
                    assert(run.found_quiet(events));
                }
            }
        }
        if let ClientState::Waiting { poll } = before.state {
            if let ClientEvent::Waited(e) = event {
                if let PollState::Finished(Ok(given)) = poll.after(e).state {
                    if !(poll.state is Finished) {
                        assert(says_success(request, e->Read_0, given));
                        assert(run.success_was_read(events, given));
                    }
                }
            }
        }
        assert(run.came_by(events, now.state));
    }
}

/// A process is told to reload only where its number is positive, the claim to the reload is held,
/// the progress file showed no other reload and now says that one has been asked for, and
/// connections have been asked to be cut if they are to be.
pub proof fn law_signal_comes_last(
    request: ReloadRequest<Seq<u8>>,
    events: Seq<ClientEvent<Seq<char>, Seq<u8>>>,
    pid: i32,
)
    requires
        ClientRun::started(request).after_all(events).asks() == ClientAction::<
            Seq<char>,
            Seq<u8>,
        >::Signal(pid),
    ensures
        pid > 0,
        ClientRun::started(request).claimed(events),
        ClientRun::started(request).found_quiet(events),
        ClientRun::started(request).marked(events),
        ClientRun::started(request).abort_asked(events),
{
    lemma_history(request, events);
}

/// A request ends well only where another reload was found to go on, which is what it then says, or
/// where the service was told to reload and the progress file said that it has succeeded.
pub proof fn law_request_succeeds_only_by_the_word_of_the_service(
    request: ReloadRequest<Seq<u8>>,
    events: Seq<ClientEvent<Seq<char>, Seq<u8>>>,
    given: Seq<char>,
)
    requires
        ClientRun::started(request).after_all(events).asks() == ClientAction::<
            Seq<char>,
            Seq<u8>,
        >::Return(Ok(given)),
    ensures
        given == busy_message(request.progress_file) || ClientRun::started(request).signalled(events)
            && ClientRun::started(request).success_was_read(events, given),
{
    lemma_history(request, events);
}

/// A request that finds another reload is turned away: it says so, and whatever is told then
/// changes nothing.
pub proof fn law_request_is_turned_away_while_another_goes_on(
    run: ClientRun<Seq<char>, Seq<u8>>,
    read: Result<Seq<u8>, Seq<char>>,
    later: ClientEvent<Seq<char>, Seq<u8>>,
)
    ensures
        ({
            let answer = ClientAction::<Seq<char>, Seq<u8>>::Return(
                Ok(busy_message(run.request.progress_file)),
            );
            let refused = run.after(ClientEvent::Claimed(Ok(false)));
            let found = run.after(ClientEvent::Progress(read));
            &&& run.state is Claiming ==> refused.asks() == answer && refused.after(later)
                == refused
            &&& run.state is ReadingProgress && shows_reload(run.request, read) ==> found.asks()
                == answer && found.after(later) == found
        }),
{
}

/// What the service and its clients write to the progress file decides whether the next request is
/// admitted: a final byte admits it, and the byte of any other stage turns it away.
pub proof fn law_stage_admits_or_turns_away(
    request: ReloadRequest<Seq<u8>>,
    code: u8,
    suffix: Seq<char>,
)
    ensures
        shows_reload(request, Ok(progress::progress_bytes(code, suffix)))
            <==> !request.codes.is_final(code),
{
    progress::law_progress_is_read_back(request.progress_file, code, suffix);
}

/// A request to a process that is known goes to that process where its number is positive, and is
/// refused where it is not; for any other the file that names the process is read first, and the
/// request goes no further where that names none.
pub proof fn law_request_needs_a_process(
    request: ReloadRequest<Seq<u8>>,
    pid: i32,
    read: Result<Seq<char>, Seq<char>>,
)
    ensures
        ({
            let first = ClientRun::started(request);
            &&& request.pid == Some(pid) && pid > 0 ==> first.asks() == ClientAction::<
                Seq<char>,
                _,
            >::Claim(request.progress_file)
            &&& request.pid == Some(pid) && pid <= 0 ==> first.asks() == ClientAction::<
                Seq<char>,
                Seq<u8>,
            >::Return(
                Err(
                    "refusing to signal non-positive pid "@ + decimal::signed_decimal(pid as int),
                ),
            )
            &&& request.pid is None ==> first.asks() == ClientAction::<Seq<char>, _>::ReadPidFile(
                request.pid_file,
            )
            &&& request.pid is None && pid_file::pid_said(request.pid_file, read) is Err
                ==> first.after(ClientEvent::PidText(read)).asks() == ClientAction::<
                Seq<char>,
                Seq<u8>,
            >::Return(Err(pid_file::pid_said(request.pid_file, read)->Err_0))
        }),
{
}

/// A request that knows its process: from the options, or from the file, of which `read` was read.
pub open spec fn addressed(
    request: ReloadRequest<Seq<u8>>,
    read: Result<Seq<char>, Seq<char>>,
) -> ClientRun<Seq<char>, Seq<u8>> {
    if request.pid is Some {
        ClientRun::started(request)
    } else {
        ClientRun::started(request).after(ClientEvent::PidText(read))
    }
}

/// What was read of a progress file does not show a reload: it could not be read, is empty, or
/// starts with the byte of an end.
pub open spec fn is_quiet(codes: ReloadCodes, read: Result<Seq<u8>, Seq<char>>) -> bool {
    match read {
        Err(_) => true,
        Ok(bytes) => bytes.len() > 0 ==> bytes[0] == codes.done || bytes[0] == codes.error,
    }
}

/// `run` asks for `action`, and ends with the error where that fails.
pub open spec fn must_do(
    run: ClientRun<Seq<char>, Seq<u8>>,
    action: ClientAction<Seq<char>, Seq<u8>>,
) -> bool {
    &&& run.asks() == action
    &&& forall|e: Seq<char>|
        (#[trigger] run.after(ClientEvent::Done(Err(e)))).asks() == ClientAction::<
            Seq<char>,
            Seq<u8>,
        >::Return(Err(e))
}

/// A request that knows its process lays claim to the reload, looks at the progress file, asks for
/// connections to be cut where they are to be cut, marks the progress file, tells the process, and
/// waits. It is turned away where somebody else holds the claim or the file shows a reload, and
/// ends with the first error; a progress file that cannot be read, or is empty, is in nobody's way.
pub proof fn law_request_goes_its_way(
    request: ReloadRequest<Seq<u8>>,
    pid: i32,
    named: Result<Seq<char>, Seq<char>>,
    read: Result<Seq<u8>, Seq<char>>,
    e: Seq<char>,
)
    requires
        request.pid == Some(pid) && pid > 0 || request.pid is None && pid_file::pid_said(
            request.pid_file,
            named,
        ) == Ok::<i32, Seq<char>>(pid),
    ensures
        ({
            let claiming = addressed(request, named);
            let looking = claiming.after(ClientEvent::Claimed(Ok(true)));
            let looked = looking.after(ClientEvent::Progress(read));
            let marking = if request.abort_connections {
                looked.after(ClientEvent::Done(Ok(())))
            } else {
                looked
            };
            let signalling = marking.after(ClientEvent::Done(Ok(())));
            let waiting = signalling.after(ClientEvent::Done(Ok(())));
            let busy = ClientAction::<Seq<char>, Seq<u8>>::Return(
                Ok(
                    utf8::lossy_text(request.progress_file)
                        + " shows another reload operation is in progress.\n"@,
                ),
            );
            &&& claiming.asks() == ClientAction::<Seq<char>, _>::Claim(request.progress_file)
            &&& claiming.after(ClientEvent::Claimed(Err(e))).asks() == ClientAction::<
                Seq<char>,
                Seq<u8>,
            >::Return(Err(e))
            &&& claiming.after(ClientEvent::Claimed(Ok(false))).asks() == busy
            &&& looking.asks() == ClientAction::<Seq<char>, _>::ReadProgress(request.progress_file)
            &&& !is_quiet(request.codes, read) ==> looked.asks() == busy
            &&& is_quiet(request.codes, read) && request.abort_connections ==> must_do(
                looked,
                ClientAction::WriteAbortFile {
                    path: request.abort_file,
                    content: seq![],
                    mode: 0o644,
                },
            )
            &&& is_quiet(request.codes, read) ==> must_do(
                marking,
                ClientAction::WriteProgress {
                    path: request.progress_file,
                    code: request.codes.send,
                    suffix: seq![],
                },
            )
            &&& is_quiet(request.codes, read) ==> must_do(signalling, ClientAction::Signal(pid))
            &&& is_quiet(request.codes, read) ==> waiting.state == (ClientState::Waiting {
                poll: ReloadPoll::started(request.codes, request.progress_file, request.timeout),
            })
            &&& is_quiet(request.codes, read) ==> waiting.asks() == ClientAction::<
                Seq<char>,
                Seq<u8>,
            >::Wait(PollAction::CheckClock)
        }),
{
}

/// A request that waits asks for what its wait asks for, hands it what comes of that, and ends with
/// what the wait ends with.
pub proof fn law_request_waits_as_its_wait_does(
    run: ClientRun<Seq<char>, Seq<u8>>,
    poll: ReloadPoll<Seq<char>, Seq<u8>>,
    event: PollEvent<Seq<char>, Seq<u8>>,
    given: Result<Seq<char>, Seq<char>>,
)
    requires
        run.state == (ClientState::Waiting { poll }),
    ensures
        run.after(ClientEvent::Waited(event)).state == (ClientState::Waiting {
            poll: poll.after(event),
        }),
        poll.asks() == PollAction::<Seq<char>, Seq<u8>>::Return(given) ==> run.asks()
            == ClientAction::<Seq<char>, Seq<u8>>::Return(given),
        !(poll.asks() is Return) ==> run.asks() == ClientAction::Wait(poll.asks()),
{
}

/// What does not answer the question of a request changes nothing, and neither does anything that
/// it is told once it is over. What is asked never changes.
pub proof fn law_request_hears_only_answers(
    run: ClientRun<Seq<char>, Seq<u8>>,
    event: ClientEvent<Seq<char>, Seq<u8>>,
)
    ensures
        run.after(event).request == run.request,
        !(match run.asks() {
            ClientAction::ReadPidFile(_) => event is PidText,
            ClientAction::Claim(_) => event is Claimed,
            ClientAction::ReadProgress(_) => event is Progress,
            ClientAction::Wait(_) => event is Waited,
            ClientAction::Return(_) => false,
            _ => event is Done,
        }) ==> run.after(event) == run,
{
}

/// What an action is shown to ask for is what it asks for, with everything that it holds.
pub proof fn law_action_is_shown_as_it_is(action: ClientAction<String, Vec<u8>>)
    ensures
        match action {
            ClientAction::ReadPidFile(path) => action@
                == ClientAction::<Seq<char>, Seq<u8>>::ReadPidFile(path@),
            ClientAction::Claim(path) => action@
                == ClientAction::<Seq<char>, Seq<u8>>::Claim(path@),
            ClientAction::ReadProgress(path) => action@
                == ClientAction::<Seq<char>, Seq<u8>>::ReadProgress(path@),
            ClientAction::WriteAbortFile { path, content, mode } => action@
                == (ClientAction::<Seq<char>, Seq<u8>>::WriteAbortFile {
                    path: path@,
                    content: content@,
                    mode,
                }),
            ClientAction::WriteProgress { path, code, suffix } => action@
                == (ClientAction::<Seq<char>, Seq<u8>>::WriteProgress {
                    path: path@,
                    code,
                    suffix: suffix@,
                }),
            ClientAction::Signal(pid) => action@ == ClientAction::<Seq<char>, Seq<u8>>::Signal(pid),
            ClientAction::Wait(inner) => action@
                == ClientAction::<Seq<char>, Seq<u8>>::Wait(inner@),
            ClientAction::Return(r) => action@
                == ClientAction::<Seq<char>, Seq<u8>>::Return(views::text_view(r)),
        },
{
}

/// What an event is shown to tell is what it tells, with everything that it holds.
pub proof fn law_event_is_shown_as_it_is(event: ClientEvent<String, Vec<u8>>)
    ensures
        match event {
            ClientEvent::PidText(r) => event@
                == ClientEvent::<Seq<char>, Seq<u8>>::PidText(views::text_view(r)),
            ClientEvent::Claimed(r) => event@
                == ClientEvent::<Seq<char>, Seq<u8>>::Claimed(views::number_view(r)),
            ClientEvent::Progress(r) => event@
                == ClientEvent::<Seq<char>, Seq<u8>>::Progress(views::bytes_view(r)),
            ClientEvent::Done(r) => event@
                == ClientEvent::<Seq<char>, Seq<u8>>::Done(views::done_view(r)),
            ClientEvent::Waited(inner) => event@
                == ClientEvent::<Seq<char>, Seq<u8>>::Waited(inner@),
        },
{
}

/// What a request is shown to be is what it is.
pub proof fn law_request_is_shown_as_it_is(request: ReloadRequest<Vec<u8>>)
    ensures
        request@.codes == request.codes,
        request@.pid == request.pid,
        request@.pid_file == request.pid_file@,
        request@.progress_file == request.progress_file@,
        request@.abort_file == request.abort_file@,
        request@.abort_connections == request.abort_connections,
        request@.timeout == request.timeout,
{
}

} // verus!
