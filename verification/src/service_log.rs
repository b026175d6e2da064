//! The log of the service itself.

use crate::decimal::{self, decimal_text};
use crate::paths::{self, parent_of};
use crate::utf8::{self, text_of};
use crate::views::{self, copy_bytes, copy_done, join2, join4};
use vstd::prelude::*;
use vstd::slice::*;

verus! {

/// Where a message stands on its way to the log. Texts are `T`, bytes are `B`.
#[derive(Debug)]
pub enum LogState<T, B> {
    /// The directory of the log is being made.
    CreatingDir { dir: B },
    /// The log is being opened.
    Opening,
    /// The line is being written.
    Writing,
    /// The message is written, or lost.
    Finished(Result<(), T>),
}

/// A message on its way to the log. Texts are `T`, bytes are `B`.
#[derive(Debug)]
pub struct LogRun<T, B> {
    /// The log.
    pub path: B,
    /// The line, with the line feed at its end.
    pub line: T,
    /// Where the message stands.
    pub state: LogState<T, B>,
}

/// What a message on its way to the log asks for. Texts are `T`, bytes are `B`.
#[derive(Debug)]
pub enum LogAction<T, B> {
    /// Make this directory, and those that it lies in.
    CreateDir(B),
    /// Open this file to append to it, without following a link, and make it where there is none.
    Open(B),
    /// Write this to the open file.
    Write(T),
    /// The message is written, or lost.
    Return(Result<(), T>),
}

/// The view of where a message stands.
pub open spec fn log_state_view(state: LogState<String, Vec<u8>>) -> LogState<Seq<char>, Seq<u8>> {
    match state {
        LogState::CreatingDir { dir } => LogState::CreatingDir { dir: dir@ },
        LogState::Opening => LogState::Opening,
        LogState::Writing => LogState::Writing,
        LogState::Finished(r) => LogState::Finished(views::done_view(r)),
    }
}

impl View for LogRun<String, Vec<u8>> {
    type V = LogRun<Seq<char>, Seq<u8>>;

    open spec fn view(&self) -> LogRun<Seq<char>, Seq<u8>> {
        LogRun { path: self.path@, line: self.line@, state: log_state_view(self.state) }
    }
}

impl View for LogAction<String, Vec<u8>> {
    type V = LogAction<Seq<char>, Seq<u8>>;

    open spec fn view(&self) -> LogAction<Seq<char>, Seq<u8>> {
        match self {
            LogAction::CreateDir(dir) => LogAction::CreateDir(dir@),
            LogAction::Open(path) => LogAction::Open(path@),
            LogAction::Write(line) => LogAction::Write(line@),
            LogAction::Return(r) => LogAction::Return(views::done_view(*r)),
        }
    }
}

/// One line of the log: the message, with the number of the process in front of it unless that is
/// switched off.
pub open spec fn log_line(disable_timestamp: bool, pid: u32, message: Seq<char>) -> Seq<char> {
    if disable_timestamp {
        message + "\n"@
    } else {
        decimal::decimal(pid as nat) + " "@ + message + "\n"@
    }
}

impl LogRun<Seq<char>, Seq<u8>> {
    /// A message that is about to be logged, where there is a log.
    pub open spec fn started(logfile: Option<Seq<u8>>, line: Seq<char>) -> Self {
        match logfile {
            None => LogRun { path: seq![], line, state: LogState::Finished(Ok(())) },
            Some(path) => LogRun {
                path,
                line,
                state: match paths::parent_path(path) {
                    Some(dir) => LogState::CreatingDir { dir },
                    None => LogState::Opening,
                },
            },
        }
    }

    /// The same message at another point.
    pub open spec fn at(self, state: LogState<Seq<char>, Seq<u8>>) -> Self {
        LogRun { state, ..self }
    }

    /// What the message asks for.
    pub open spec fn asks(self) -> LogAction<Seq<char>, Seq<u8>> {
        match self.state {
            LogState::CreatingDir { dir } => LogAction::CreateDir(dir),
            LogState::Opening => LogAction::Open(self.path),
            LogState::Writing => LogAction::Write(self.line),
            LogState::Finished(r) => LogAction::Return(r),
        }
    }

    /// The message after its action came to `done`: the first failure loses it.
    pub open spec fn after(self, done: Result<(), Seq<char>>) -> Self {
        match (self.state, done) {
            (LogState::CreatingDir { dir }, Ok(())) => self.at(LogState::Opening),
            (LogState::CreatingDir { dir }, Err(e)) => self.at(
                LogState::Finished(
                    Err("failed to create log dir "@ + utf8::lossy_text(dir) + ": "@ + e),
                ),
            ),
            (LogState::Opening, Ok(())) => self.at(LogState::Writing),
            (LogState::Opening, Err(e)) => self.at(
                LogState::Finished(Err("failed to open log "@ + utf8::lossy_text(self.path) + ": "@ + e)),
            ),
            (LogState::Writing, Ok(())) => self.at(LogState::Finished(Ok(()))),
            (LogState::Writing, Err(e)) => self.at(
                LogState::Finished(
                    Err("failed to write log "@ + utf8::lossy_text(self.path) + ": "@ + e),
                ),
            ),
            (LogState::Finished(r), _) => self,
        }
    }
}

/// The view of the path of a log.
pub open spec fn logfile_view(logfile: Option<&[u8]>) -> Option<Seq<u8>> {
    match logfile {
        Some(path) => Some(path@),
        None => None,
    }
}

/// Begins to log `message`, where there is a log.
pub fn log_event(logfile: Option<&[u8]>, disable_timestamp: bool, pid: u32, message: &str) -> (run:
    LogRun<String, Vec<u8>>)
    ensures
        run@ == LogRun::started(
            logfile_view(logfile),
            log_line(disable_timestamp, pid, message@),
        ),
{
    let line = if disable_timestamp {
        join2(message, "\n")
    } else {
        join4(decimal_text(pid as u64).as_str(), " ", message, "\n")
    };
    match logfile {
        None => {
            let run = LogRun { path: Vec::new(), line, state: LogState::Finished(Ok(())) };
            assert(run@.path =~= seq![]);
            run
        },
        Some(path) => {
            let state = match parent_of(path) {
                Some(dir) => LogState::CreatingDir { dir },
                None => LogState::Opening,
            };
            LogRun { path: slice_to_vec(path), line, state }
        },
    }
}

impl LogRun<String, Vec<u8>> {
    /// What the message asks for.
    pub fn action(&self) -> (action: LogAction<String, Vec<u8>>)
        ensures
            action@ == self@.asks(),
    {
        match &self.state {
            LogState::CreatingDir { dir } => LogAction::CreateDir(copy_bytes(dir)),
            LogState::Opening => LogAction::Open(copy_bytes(&self.path)),
            LogState::Writing => LogAction::Write(self.line.clone()),
            LogState::Finished(r) => LogAction::Return(copy_done(r)),
        }
    }

    /// Tells the message what came of its action.
    pub fn tell(self, done: Result<(), String>) -> (run: Self)
        ensures
            run@ == self@.after(views::done_view(done)),
    {
        let path_text = text_of(self.path.as_slice());
        let state: LogState<String, Vec<u8>> = match (self.state, done) {
            (LogState::CreatingDir { dir }, Ok(())) => LogState::Opening,
            (LogState::CreatingDir { dir }, Err(e)) => LogState::Finished(
                Err(
                    join4(
                        "failed to create log dir ",
                        text_of(dir.as_slice()).as_str(),
                        ": ",
                        e.as_str(),
                    ),
                ),
            ),
            (LogState::Opening, Ok(())) => LogState::Writing,
            (LogState::Opening, Err(e)) => LogState::Finished(
                Err(join4("failed to open log ", path_text.as_str(), ": ", e.as_str())),
            ),
            (LogState::Writing, Ok(())) => LogState::Finished(Ok(())),
            (LogState::Writing, Err(e)) => LogState::Finished(
                Err(join4("failed to write log ", path_text.as_str(), ": ", e.as_str())),
            ),
            (LogState::Finished(r), _) => LogState::Finished(r),
        };
        LogRun { path: self.path, line: self.line, state }
    }
}

/// Where nothing fails, a message makes the directory of the log, opens the log and is written as
/// one line; and where there is no log, nothing is asked for.
pub proof fn law_message_becomes_one_line(path: Seq<u8>, dir: Seq<u8>, line: Seq<char>)
    requires
        paths::parent_path(path) == Some(dir),
    ensures
        ({
            let first = LogRun::started(Some(path), line);
            let second = first.after(Ok(()));
            let third = second.after(Ok(()));
            &&& first.asks() == LogAction::<Seq<char>, Seq<u8>>::CreateDir(dir)
            &&& second.asks() == LogAction::<Seq<char>, Seq<u8>>::Open(path)
            &&& third.asks() == LogAction::<Seq<char>, Seq<u8>>::Write(line)
            &&& third.after(Ok(())).asks() == LogAction::<Seq<char>, Seq<u8>>::Return(Ok(()))
            &&& LogRun::started(None, line).asks() == LogAction::<Seq<char>, Seq<u8>>::Return(
                Ok(()),
            )
        }),
{
}

/// A line of the log is the message and a line feed, with the number of the process and a space in
/// front unless that is switched off.
pub proof fn law_line_holds_the_message(pid: u32, message: Seq<char>)
    ensures
        log_line(true, pid, message) == message + "\n"@,
        log_line(false, pid, message) == decimal::decimal(pid as nat) + " "@ + message + "\n"@,
{
}

/// A message to a log that lies in no directory opens it at once. Whatever fails is told with the
/// path that it was about, and loses the message. A message that is over stays so.
pub proof fn law_lost_message_says_why(
    path: Seq<u8>,
    line: Seq<char>,
    e: Seq<char>,
    later: Result<(), Seq<char>>,
)
    ensures
        ({
            let first = LogRun::started(Some(path), line);
            let opening = if paths::parent_path(path) is Some {
                first.after(Ok(()))
            } else {
                first
            };
            let writing = opening.after(Ok(()));
            &&& paths::parent_path(path) is Some ==> first.asks() == LogAction::<
                Seq<char>,
                _,
            >::CreateDir(paths::parent_path(path)->0)
            &&& paths::parent_path(path) is Some ==> first.after(Err(e)).asks() == LogAction::<
                Seq<char>,
                Seq<u8>,
            >::Return(
                Err(
                    "failed to create log dir "@ + utf8::lossy_text(paths::parent_path(path)->0)
                        + ": "@ + e,
                ),
            )
            &&& opening.asks() == LogAction::<Seq<char>, _>::Open(path)
            &&& opening.after(Err(e)).asks() == LogAction::<Seq<char>, Seq<u8>>::Return(
                Err("failed to open log "@ + utf8::lossy_text(path) + ": "@ + e),
            )
            &&& writing.asks() == LogAction::<_, Seq<u8>>::Write(line)
            &&& writing.after(Err(e)).asks() == LogAction::<Seq<char>, Seq<u8>>::Return(
                Err("failed to write log "@ + utf8::lossy_text(path) + ": "@ + e),
            )
            &&& writing.after(Ok(())).asks() == LogAction::<Seq<char>, Seq<u8>>::Return(Ok(()))
        }),
        forall|run: LogRun<Seq<char>, Seq<u8>>|
            run.asks() is Return ==> #[trigger] run.after(later) == run,
{
}

/// What an action is shown to ask for is what it asks for, with everything that it holds.
pub proof fn law_action_is_shown_as_it_is(action: LogAction<String, Vec<u8>>)
    ensures
        match action {
            LogAction::CreateDir(dir) => action@
                == LogAction::<Seq<char>, Seq<u8>>::CreateDir(dir@),
            LogAction::Open(path) => action@ == LogAction::<Seq<char>, Seq<u8>>::Open(path@),
            LogAction::Write(line) => action@ == LogAction::<Seq<char>, Seq<u8>>::Write(line@),
            LogAction::Return(r) => action@
                == LogAction::<Seq<char>, Seq<u8>>::Return(views::done_view(r)),
        },
{
}

} // verus!
