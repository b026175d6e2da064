//! How the service reloads, and how it answers a request to suspend.

use crate::notify::Notice;
use crate::paths::{self, resident_config_asset_dir};
use crate::progress::ReloadCodes;
use crate::runtime::{self, SwapEvent, SwapRun};
use crate::views::{self, copy_bytes, copy_done, join2};
use vstd::prelude::*;

verus! {

/// The files that a reload deals with. Bytes are `B`.
#[derive(Debug)]
pub struct ReloadFiles<B> {
    /// The configuration.
    pub config: B,
    /// The progress file.
    pub progress_file: B,
    /// The file that asks for connections to be cut.
    pub abort_file: B,
}

/// What a reload asks for. Texts are `T`, bytes are `B`.
#[derive(Debug)]
pub enum ReloadAction<T, B> {
    /// Tell the service manager.
    Notify(Notice),
    /// Write the progress file.
    WriteProgress { path: B, code: u8, suffix: T },
    /// Remove this file, which asks for connections to be cut.
    RemoveAbortFile(B),
    /// Load this configuration.
    LoadConfig(B),
    /// Wait until there is a network, or until the reload is cancelled.
    WaitForNetwork,
    /// Say whether the reload is cancelled.
    CheckCancelled,
    /// Check the configuration that was loaded.
    ValidateConfig,
    /// Replace the runtime by one with the configuration that was loaded, which looks for its
    /// geodata in this directory.
    SwapRuntime { asset_dir: B },
    /// Write to the log.
    Log(T),
    /// The reload is over, with this.
    Return(Result<(), T>),
}

/// What an action of a reload came to. Texts are `T`.
#[derive(Debug)]
pub enum ReloadEvent<T> {
    /// The action succeeded or failed.
    Done(Result<(), T>),
    /// The configuration was loaded, and says whether not to wait for the network, or was not.
    Loaded(Result<bool, T>),
    /// Whether the reload is cancelled.
    Cancelled(bool),
    /// What replacing the runtime came to, and whether one is running now.
    Swapped { result: Result<(), T>, running: bool },
}

/// Where a reload stands. Texts are `T`.
#[derive(Debug)]
pub enum ReloadState<T> {
    /// The service manager is being told that a reload goes on.
    Announcing,
    /// The progress file is being told that a reload goes on.
    Marking,
    /// The file that asks for connections to be cut is being removed.
    ClearingAbort,
    /// The configuration is being loaded.
    Loading,
    /// The network is being waited for.
    WaitingForNetwork,
    /// Whether to go on is wanted.
    CheckingCancel,
    /// The configuration is being checked.
    Validating,
    /// The runtime is being replaced.
    Swapping,
    /// The end is being written to the progress file.
    Reporting { code: u8, suffix: T, log: Option<T>, result: Result<(), T> },
    /// The end is being logged.
    Logging { message: T, result: Result<(), T> },
    /// Whether the service stays up is wanted.
    CheckingReady { result: Result<(), T> },
    /// The service manager is being told that the service is up again.
    AnnouncingReady { result: Result<(), T> },
    /// The reload is over.
    Finished(Result<(), T>),
}

/// A reload. Texts are `T`, bytes are `B`.
#[derive(Debug)]
pub struct ReloadRun<T, B> {
    /// The bytes of the stages.
    pub codes: ReloadCodes,
    /// The files that it deals with.
    pub files: ReloadFiles<B>,
    /// Where the reload stands.
    pub state: ReloadState<T>,
}

impl View for ReloadFiles<Vec<u8>> {
    type V = ReloadFiles<Seq<u8>>;

    open spec fn view(&self) -> ReloadFiles<Seq<u8>> {
        ReloadFiles {
            config: self.config@,
            progress_file: self.progress_file@,
            abort_file: self.abort_file@,
        }
    }
}

impl View for ReloadAction<String, Vec<u8>> {
    type V = ReloadAction<Seq<char>, Seq<u8>>;

    open spec fn view(&self) -> ReloadAction<Seq<char>, Seq<u8>> {
        match self {
            ReloadAction::Notify(notice) => ReloadAction::Notify(*notice),
            ReloadAction::WriteProgress { path, code, suffix } => ReloadAction::WriteProgress {
                path: path@,
                code: *code,
                suffix: suffix@,
            },
            ReloadAction::RemoveAbortFile(path) => ReloadAction::RemoveAbortFile(path@),
            ReloadAction::LoadConfig(path) => ReloadAction::LoadConfig(path@),
            ReloadAction::WaitForNetwork => ReloadAction::WaitForNetwork,
            ReloadAction::CheckCancelled => ReloadAction::CheckCancelled,
            ReloadAction::ValidateConfig => ReloadAction::ValidateConfig,
            ReloadAction::SwapRuntime { asset_dir } => ReloadAction::SwapRuntime {
                asset_dir: asset_dir@,
            },
            ReloadAction::Log(message) => ReloadAction::Log(message@),
            ReloadAction::Return(r) => ReloadAction::Return(views::done_view(*r)),
        }
    }
}

impl View for ReloadEvent<String> {
    type V = ReloadEvent<Seq<char>>;

    open spec fn view(&self) -> ReloadEvent<Seq<char>> {
        match self {
            ReloadEvent::Done(r) => ReloadEvent::Done(views::done_view(*r)),
            ReloadEvent::Loaded(r) => ReloadEvent::Loaded(views::number_view(*r)),
            ReloadEvent::Cancelled(b) => ReloadEvent::Cancelled(*b),
            ReloadEvent::Swapped { result, running } => ReloadEvent::Swapped {
                result: views::done_view(*result),
                running: *running,
            },
        }
    }
}

/// The view of where a reload stands.
pub open spec fn reload_state_view(state: ReloadState<String>) -> ReloadState<Seq<char>> {
    match state {
        ReloadState::Announcing => ReloadState::Announcing,
        ReloadState::Marking => ReloadState::Marking,
        ReloadState::ClearingAbort => ReloadState::ClearingAbort,
        ReloadState::Loading => ReloadState::Loading,
        ReloadState::WaitingForNetwork => ReloadState::WaitingForNetwork,
        ReloadState::CheckingCancel => ReloadState::CheckingCancel,
        ReloadState::Validating => ReloadState::Validating,
        ReloadState::Swapping => ReloadState::Swapping,
        ReloadState::Reporting { code, suffix, log, result } => ReloadState::Reporting {
            code,
            suffix: suffix@,
            log: views::maybe_view(log),
            result: views::done_view(result),
        },
        ReloadState::Logging { message, result } => ReloadState::Logging {
            message: message@,
            result: views::done_view(result),
        },
        ReloadState::CheckingReady { result } => ReloadState::CheckingReady {
            result: views::done_view(result),
        },
        ReloadState::AnnouncingReady { result } => ReloadState::AnnouncingReady {
            result: views::done_view(result),
        },
        ReloadState::Finished(r) => ReloadState::Finished(views::done_view(r)),
    }
}

impl View for ReloadRun<String, Vec<u8>> {
    type V = ReloadRun<Seq<char>, Seq<u8>>;

    open spec fn view(&self) -> ReloadRun<Seq<char>, Seq<u8>> {
        ReloadRun { codes: self.codes, files: self.files@, state: reload_state_view(self.state) }
    }
}

impl ReloadRun<Seq<char>, Seq<u8>> {
    /// A reload that has just begun.
    pub open spec fn started(codes: ReloadCodes, files: ReloadFiles<Seq<u8>>) -> Self {
        ReloadRun { codes, files, state: ReloadState::Announcing }
    }

    /// The same reload at another point.
    pub open spec fn at(self, state: ReloadState<Seq<char>>) -> Self {
        ReloadRun { state, ..self }
    }

    /// The reload where an action that has to succeed came to `done`.
    pub open spec fn must(self, done: Result<(), Seq<char>>, next: ReloadState<Seq<char>>) -> Self {
        match done {
            Ok(()) => self.at(next),
            Err(e) => self.at(ReloadState::Finished(Err(e))),
        }
    }

    /// The reload at its end: `suffix` goes to the progress file with the byte of a failure,
    /// `message` to the log, and `result` to the caller.
    pub open spec fn failed(
        self,
        suffix: Seq<char>,
        message: Seq<char>,
        result: Result<(), Seq<char>>,
    ) -> Self {
        self.at(
            ReloadState::Reporting { code: self.codes.error, suffix, log: Some(message), result },
        )
    }

    /// What the reload asks for.
    pub open spec fn asks(self) -> ReloadAction<Seq<char>, Seq<u8>> {
        match self.state {
            ReloadState::Announcing => ReloadAction::Notify(Notice::Reloading),
            ReloadState::Marking => ReloadAction::WriteProgress {
                path: self.files.progress_file,
                code: self.codes.processing,
                suffix: seq![],
            },
            ReloadState::ClearingAbort => ReloadAction::RemoveAbortFile(self.files.abort_file),
            ReloadState::Loading => ReloadAction::LoadConfig(self.files.config),
            ReloadState::WaitingForNetwork => ReloadAction::WaitForNetwork,
            ReloadState::CheckingCancel => ReloadAction::CheckCancelled,
            ReloadState::Validating => ReloadAction::ValidateConfig,
            ReloadState::Swapping => ReloadAction::SwapRuntime {
                asset_dir: paths::asset_dir(self.files.config),
            },
            ReloadState::Reporting { code, suffix, log, result } => ReloadAction::WriteProgress {
                path: self.files.progress_file,
                code,
                suffix,
            },
            ReloadState::Logging { message, result } => ReloadAction::Log(message),
            ReloadState::CheckingReady { result } => ReloadAction::CheckCancelled,
            ReloadState::AnnouncingReady { result } => ReloadAction::Notify(Notice::Ready),
            ReloadState::Finished(r) => ReloadAction::Return(r),
        }
    }

    /// The reload after it has been told `event`. An event that answers nothing asked for changes
    /// nothing.
    pub open spec fn after(self, event: ReloadEvent<Seq<char>>) -> Self {
        match (self.state, event) {
            (ReloadState::Announcing, ReloadEvent::Done(done)) => self.must(
                done,
                ReloadState::Marking,
            ),
            (ReloadState::Marking, ReloadEvent::Done(done)) => self.must(
                done,
                ReloadState::ClearingAbort,
            ),
            (ReloadState::ClearingAbort, ReloadEvent::Done(_)) => self.at(ReloadState::Loading),
            (ReloadState::Loading, ReloadEvent::Loaded(Err(e))) => self.failed(
                "\n"@ + e,
                "reload failed"@,
                Ok(()),
            ),
            (ReloadState::Loading, ReloadEvent::Loaded(Ok(disable_waiting))) => self.at(
                if disable_waiting {
                    ReloadState::CheckingCancel
                } else {
                    ReloadState::WaitingForNetwork
                },
            ),
            (ReloadState::WaitingForNetwork, ReloadEvent::Done(Err(e))) => self.failed(
                "\nwaiting for network before reload failed: "@ + e,
                "reload failed while waiting for network"@,
                Ok(()),
            ),
            (ReloadState::WaitingForNetwork, ReloadEvent::Done(Ok(()))) => self.at(
                ReloadState::CheckingCancel,
            ),
            (ReloadState::CheckingCancel, ReloadEvent::Cancelled(cancelled)) => self.at(
                if cancelled {
                    ReloadState::Reporting {
                        code: self.codes.error,
                        suffix: "\nreload cancelled by service shutdown"@,
                        log: None,
                        result: Ok(()),
                    }
                } else {
                    ReloadState::Validating
                },
            ),
            (ReloadState::Validating, ReloadEvent::Done(Err(e))) => self.failed(
                "\n"@ + e,
                "reload failed"@,
                Ok(()),
            ),
            (ReloadState::Validating, ReloadEvent::Done(Ok(()))) => self.at(ReloadState::Swapping),
            (
                ReloadState::Swapping,
                ReloadEvent::Swapped { result: Err(e), running },
            ) => self.failed(
                "\n"@ + e,
                "reload failed"@,
                if running {
                    Ok(())
                } else {
                    Err(e)
                },
            ),
            (
                ReloadState::Swapping,
                ReloadEvent::Swapped { result: Ok(()), running },
            ) => self.at(
                ReloadState::Reporting {
                    code: self.codes.done,
                    suffix: "\nOK"@,
                    log: Some("reload completed"@),
                    result: Ok(()),
                },
            ),
            (
                ReloadState::Reporting { code, suffix, log, result },
                ReloadEvent::Done(done),
            ) => self.must(
                done,
                match log {
                    Some(message) => ReloadState::Logging { message, result },
                    None => ReloadState::Finished(result),
                },
            ),
            (ReloadState::Logging { message, result }, ReloadEvent::Done(done)) => self.must(
                done,
                ReloadState::CheckingReady { result },
            ),
            (
                ReloadState::CheckingReady { result },
                ReloadEvent::Cancelled(cancelled),
            ) => self.at(
                if cancelled {
                    ReloadState::Finished(result)
                } else {
                    ReloadState::AnnouncingReady { result }
                },
            ),
            (ReloadState::AnnouncingReady { result }, ReloadEvent::Done(done)) => self.must(
                done,
                ReloadState::Finished(result),
            ),
            _ => self,
        }
    }

    /// The reload after it has been told all of `events`, one after the other.
    pub open spec fn after_all(self, events: Seq<ReloadEvent<Seq<char>>>) -> Self
        decreases events.len(),
    {
        if events.len() == 0 {
            self
        } else {
            self.after_all(events.drop_last()).after(events.last())
        }
    }

    /// At the event numbered `i`, the reload asked for `action` and was told `event`.
    pub open spec fn told(
        self,
        events: Seq<ReloadEvent<Seq<char>>>,
        i: int,
        action: ReloadAction<Seq<char>, Seq<u8>>,
        event: ReloadEvent<Seq<char>>,
    ) -> bool {
        &&& 0 <= i < events.len()
        &&& self.after_all(events.take(i)).asks() == action
        &&& events[i] == event
    }

    /// At some point the reload asked for `action` and was told `event`.
    pub open spec fn did(
        self,
        events: Seq<ReloadEvent<Seq<char>>>,
        action: ReloadAction<Seq<char>, Seq<u8>>,
        event: ReloadEvent<Seq<char>>,
    ) -> bool {
        exists|i: int| self.told(events, i, action, event)
    }
}

/// Where a reload goes on when an action that has to succeed came to `done`.
fn must(done: Result<(), String>, next: ReloadState<String>) -> (state: ReloadState<String>)
    ensures
        reload_state_view(state) == (match done {
            Ok(()) => reload_state_view(next),
            Err(e) => ReloadState::Finished(Err(e@)),
        }),
{
    match done {
        Ok(()) => next,
        Err(e) => ReloadState::Finished(Err(e)),
    }
}

/// The end of a reload that failed.
fn failed(codes: ReloadCodes, suffix: String, message: &str, result: Result<(), String>) -> (state:
    ReloadState<String>)
    ensures
        reload_state_view(state) == (ReloadState::Reporting {
            code: codes.error,
            suffix: suffix@,
            log: Some(message@),
            result: views::done_view(result),
        }),
{
    ReloadState::Reporting { code: codes.error, suffix, log: Some(message.to_owned()), result }
}

/// Begins a reload.
pub fn handle_reload_until(codes: ReloadCodes, files: ReloadFiles<Vec<u8>>) -> (run: ReloadRun<
    String,
    Vec<u8>,
>)
    ensures
        run@ == ReloadRun::started(codes, files@),
{
    ReloadRun { codes, files, state: ReloadState::Announcing }
}

impl ReloadRun<String, Vec<u8>> {
    /// What the reload asks for.
    pub fn action(&self) -> (action: ReloadAction<String, Vec<u8>>)
        ensures
            action@ == self@.asks(),
    {
        match &self.state {
            ReloadState::Announcing => ReloadAction::Notify(Notice::Reloading),
            ReloadState::Marking => ReloadAction::WriteProgress {
                path: copy_bytes(&self.files.progress_file),
                code: self.codes.processing,
                suffix: String::new(),
            },
            ReloadState::ClearingAbort => ReloadAction::RemoveAbortFile(
                copy_bytes(&self.files.abort_file),
            ),
            ReloadState::Loading => ReloadAction::LoadConfig(copy_bytes(&self.files.config)),
            ReloadState::WaitingForNetwork => ReloadAction::WaitForNetwork,
            ReloadState::CheckingCancel => ReloadAction::CheckCancelled,
            ReloadState::Validating => ReloadAction::ValidateConfig,
            ReloadState::Swapping => ReloadAction::SwapRuntime {
                asset_dir: resident_config_asset_dir(self.files.config.as_slice()),
            },
            ReloadState::Reporting { code, suffix, log, result } => ReloadAction::WriteProgress {
                path: copy_bytes(&self.files.progress_file),
                code: *code,
                suffix: suffix.clone(),
            },
            ReloadState::Logging { message, result } => ReloadAction::Log(message.clone()),
            ReloadState::CheckingReady { result } => ReloadAction::CheckCancelled,
            ReloadState::AnnouncingReady { result } => ReloadAction::Notify(Notice::Ready),
            ReloadState::Finished(r) => ReloadAction::Return(copy_done(r)),
        }
    }

    /// Tells the reload what came of its action.
    pub fn tell(self, event: ReloadEvent<String>) -> (run: Self)
        ensures
            run@ == self@.after(event@),
    {
        let codes = self.codes;
        let files = self.files;
        let state: ReloadState<String> = match (self.state, event) {
            (ReloadState::Announcing, ReloadEvent::Done(done)) => must(done, ReloadState::Marking),
            (ReloadState::Marking, ReloadEvent::Done(done)) => must(
                done,
                ReloadState::ClearingAbort,
            ),
            (ReloadState::ClearingAbort, ReloadEvent::Done(_)) => ReloadState::Loading,
            (ReloadState::Loading, ReloadEvent::Loaded(Err(e))) => failed(
                codes,
                join2("\n", e.as_str()),
                "reload failed",
                Ok(()),
            ),
            (ReloadState::Loading, ReloadEvent::Loaded(Ok(disable_waiting))) => {
                if disable_waiting {
                    ReloadState::CheckingCancel
                } else {
                    ReloadState::WaitingForNetwork
                }
            },
            (ReloadState::WaitingForNetwork, ReloadEvent::Done(Err(e))) => failed(
                codes,
                join2("\nwaiting for network before reload failed: ", e.as_str()),
                "reload failed while waiting for network",
                Ok(()),
            ),
            (ReloadState::WaitingForNetwork, ReloadEvent::Done(Ok(()))) => {
                ReloadState::CheckingCancel
            },
            (ReloadState::CheckingCancel, ReloadEvent::Cancelled(cancelled)) => {
                if cancelled {
                    ReloadState::Reporting {
                        code: codes.error,
                        suffix: "\nreload cancelled by service shutdown".to_owned(),
                        log: None,
                        result: Ok(()),
                    }
                } else {
                    ReloadState::Validating
                }
            },
            (ReloadState::Validating, ReloadEvent::Done(Err(e))) => failed(
                codes,
                join2("\n", e.as_str()),
                "reload failed",
                Ok(()),
            ),
            (ReloadState::Validating, ReloadEvent::Done(Ok(()))) => ReloadState::Swapping,
            (ReloadState::Swapping, ReloadEvent::Swapped { result: Err(e), running }) => {
                let suffix = join2("\n", e.as_str());
                let result: Result<(), String> = if running {
                    Ok(())
                } else {
                    Err(e)
                };
                failed(codes, suffix, "reload failed", result)
            },
            (ReloadState::Swapping, ReloadEvent::Swapped { result: Ok(()), running }) => {
                ReloadState::Reporting {
                    code: codes.done,
                    suffix: "\nOK".to_owned(),
                    log: Some("reload completed".to_owned()),
                    result: Ok(()),
                }
            },
            (
                ReloadState::Reporting { code, suffix, log, result },
                ReloadEvent::Done(done),
            ) => must(
                done,
                match log {
                    Some(message) => ReloadState::Logging { message, result },
                    None => ReloadState::Finished(result),
                },
            ),
            (ReloadState::Logging { message, result }, ReloadEvent::Done(done)) => must(
                done,
                ReloadState::CheckingReady { result },
            ),
            (ReloadState::CheckingReady { result }, ReloadEvent::Cancelled(cancelled)) => {
                if cancelled {
                    ReloadState::Finished(result)
                } else {
                    ReloadState::AnnouncingReady { result }
                }
            },
            (ReloadState::AnnouncingReady { result }, ReloadEvent::Done(done)) => must(
                done,
                ReloadState::Finished(result),
            ),
            (other, _) => other,
        };
        ReloadRun { codes, files, state }
    }
}

impl ReloadRun<Seq<char>, Seq<u8>> {
    /// The action that loads the configuration.
    pub open spec fn loads(self) -> ReloadAction<Seq<char>, Seq<u8>> {
        ReloadAction::LoadConfig(self.files.config)
    }

    /// The action that replaces the runtime.
    pub open spec fn swaps(self) -> ReloadAction<Seq<char>, Seq<u8>> {
        ReloadAction::SwapRuntime { asset_dir: paths::asset_dir(self.files.config) }
    }

    /// A final byte has been written to the progress file.
    pub open spec fn reported(self, events: Seq<ReloadEvent<Seq<char>>>) -> bool {
        exists|code: u8, suffix: Seq<char>|
            self.codes.is_final(code) && #[trigger] self.did(
                events,
                ReloadAction::WriteProgress { path: self.files.progress_file, code, suffix },
                ReloadEvent::Done(Ok(())),
            )
    }

    /// The configuration has been loaded, and there is a network where it wants one.
    pub open spec fn prepared(self, events: Seq<ReloadEvent<Seq<char>>>) -> bool {
        ||| self.did(events, self.loads(), ReloadEvent::Loaded(Ok(true)))
        ||| self.did(events, self.loads(), ReloadEvent::Loaded(Ok(false))) && self.did(
            events,
            ReloadAction::WaitForNetwork,
            ReloadEvent::Done(Ok(())),
        )
    }

    /// The runtime has been replaced.
    pub open spec fn replaced(self, events: Seq<ReloadEvent<Seq<char>>>) -> bool {
        exists|running: bool| #[trigger]
            self.did(
                events,
                self.swaps(),
                ReloadEvent::Swapped { result: Ok(()), running },
            )
    }

    /// Replacing the runtime came to `result`, and one is running then or not.
    pub open spec fn swapped(
        self,
        events: Seq<ReloadEvent<Seq<char>>>,
        result: Result<(), Seq<char>>,
        running: bool,
    ) -> bool {
        self.did(events, self.swaps(), ReloadEvent::Swapped { result, running })
    }

    /// The runtime was lost because of `error`: none is running any more.
    pub open spec fn lost(self, events: Seq<ReloadEvent<Seq<char>>>, error: Seq<char>) -> bool {
        self.did(
            events,
            self.swaps(),
            ReloadEvent::Swapped { result: Err(error), running: false },
        )
    }

    /// The reload was cancelled when it asked.
    pub open spec fn cancelled(self, events: Seq<ReloadEvent<Seq<char>>>) -> bool {
        self.did(events, ReloadAction::CheckCancelled, ReloadEvent::Cancelled(true))
    }

    /// The service manager has been told that the service is up again.
    pub open spec fn announced(self, events: Seq<ReloadEvent<Seq<char>>>) -> bool {
        self.did(events, ReloadAction::Notify(Notice::Ready), ReloadEvent::Done(Ok(())))
    }

    /// An action that tells somebody how the reload goes failed with `error`.
    pub open spec fn untold(self, events: Seq<ReloadEvent<Seq<char>>>, error: Seq<char>) -> bool {
        exists|action: ReloadAction<Seq<char>, Seq<u8>>|
            (action is Notify || action is WriteProgress || action is Log) && #[trigger] self.did(
                events,
                action,
                ReloadEvent::Done(Err(error)),
            )
    }

    /// `result` is a success, or the runtime was lost because of what it says.
    pub open spec fn accounted(
        self,
        events: Seq<ReloadEvent<Seq<char>>>,
        result: Result<(), Seq<char>>,
    ) -> bool {
        result matches Err(e) ==> self.lost(events, e)
    }

    /// What has happened when a reload stands at `state`.
    pub open spec fn came_by(
        self,
        events: Seq<ReloadEvent<Seq<char>>>,
        state: ReloadState<Seq<char>>,
    ) -> bool {
        match state {
            ReloadState::WaitingForNetwork => self.did(
                events,
                self.loads(),
                ReloadEvent::Loaded(Ok(false)),
            ),
            ReloadState::CheckingCancel => self.prepared(events),
            ReloadState::Validating => {
                &&& self.prepared(events)
                &&& self.did(events, ReloadAction::CheckCancelled, ReloadEvent::Cancelled(false))
            },
            ReloadState::Swapping => {
                &&& self.prepared(events)
                &&& self.did(events, ReloadAction::CheckCancelled, ReloadEvent::Cancelled(false))
                &&& self.did(events, ReloadAction::ValidateConfig, ReloadEvent::Done(Ok(())))
            },
            ReloadState::Reporting { code, suffix, log, result } => {
                &&& self.codes.is_final(code)
                &&& self.accounted(events, result)
                &&& code == self.codes.done ==> self.replaced(events) || code == self.codes.error
                &&& log is None ==> self.cancelled(events)
            },
            ReloadState::Logging { message, result } => {
                &&& self.reported(events)
                &&& self.accounted(events, result)
            },
            ReloadState::CheckingReady { result } => {
                &&& self.reported(events)
                &&& self.accounted(events, result)
            },
            ReloadState::AnnouncingReady { result } => {
                &&& self.reported(events)
                &&& self.accounted(events, result)
            },
            ReloadState::Finished(Ok(())) => {
                &&& self.reported(events)
                &&& self.announced(events) || self.cancelled(events)
            },
            ReloadState::Finished(Err(e)) => self.lost(events, e) && self.reported(events)
                || self.untold(events, e),
            _ => true,
        }
    }
}

/// What a reload did before an event it has done after it too.
proof fn lemma_did_stays(run: ReloadRun<Seq<char>, Seq<u8>>, events: Seq<ReloadEvent<Seq<char>>>)
    requires
        events.len() > 0,
    ensures
        forall|action: ReloadAction<Seq<char>, Seq<u8>>, event: ReloadEvent<Seq<char>>|
            run.did(events.drop_last(), action, event) ==> #[trigger] run.did(
                events,
                action,
                event,
            ),
        forall|action: ReloadAction<Seq<char>, Seq<u8>>, event: ReloadEvent<Seq<char>>|
            #[trigger] run.did(events, action, event) ==> run.did(
                events.drop_last(),
                action,
                event,
            ) || action == run.after_all(events.drop_last()).asks() && event == events.last(),
        run.did(events, run.after_all(events.drop_last()).asks(), events.last()),
{
    let rest = events.drop_last();
    let n = events.len() - 1;
    assert(events.take(n) =~= rest);
    assert forall|action: ReloadAction<Seq<char>, Seq<u8>>, event: ReloadEvent<Seq<char>>|
        #[trigger] run.did(events, action, event) implies run.did(rest, action, event) || action
        == run.after_all(rest).asks() && event == events.last() by {
        let i = choose|i: int| run.told(events, i, action, event);
        if i < n {
            assert(rest.take(i) =~= events.take(i));
            assert(run.told(rest, i, action, event));
        }
    }
    assert forall|action: ReloadAction<Seq<char>, Seq<u8>>, event: ReloadEvent<Seq<char>>|
        run.did(rest, action, event) implies #[trigger] run.did(events, action, event) by {
        let i = choose|i: int| run.told(rest, i, action, event);
        assert(rest.take(i) =~= events.take(i));
        assert(run.told(events, i, action, event));
    }
    assert(run.told(events, n, run.after_all(rest).asks(), events.last()));
}

/// What has happened stays so.
proof fn lemma_came_by_stays(
    run: ReloadRun<Seq<char>, Seq<u8>>,
    events: Seq<ReloadEvent<Seq<char>>>,
    state: ReloadState<Seq<char>>,
)
    requires
        events.len() > 0,
        run.came_by(events.drop_last(), state),
    ensures
        run.came_by(events, state),
{
    let rest = events.drop_last();
    lemma_did_stays(run, events);
    if run.reported(rest) {
        let (code, suffix) = choose|code: u8, suffix: Seq<char>|
            run.codes.is_final(code) && #[trigger] run.did(
                rest,
                ReloadAction::WriteProgress { path: run.files.progress_file, code, suffix },
                ReloadEvent::Done(Ok(())),
            );
        assert(run.did(
            events,
            ReloadAction::WriteProgress { path: run.files.progress_file, code, suffix },
            ReloadEvent::Done(Ok(())),
        ));
        assert(run.reported(events));
    }
    if run.replaced(rest) {
        let running = choose|running: bool| #[trigger]
            run.did(
                rest,
                run.swaps(),
                ReloadEvent::Swapped { result: Ok(()), running },
            );
        assert(run.did(
            events,
            run.swaps(),
            ReloadEvent::Swapped { result: Ok(()), running },
        ));
        assert(run.replaced(events));
    }
    if let ReloadState::Finished(Err(e)) = state {
        if run.untold(rest, e) {
            let action = choose|action: ReloadAction<Seq<char>, Seq<u8>>|
                (action is Notify || action is WriteProgress || action is Log) && #[trigger] run.did(
                    rest,
                    action,
                    ReloadEvent::Done(Err(e)),
                );
            assert(run.did(events, action, ReloadEvent::Done(Err(e))));
            assert(run.untold(events, e));
        }
    }
}

/// However a reload came to where it stands, what has to have happened has.
proof fn lemma_history(
    codes: ReloadCodes,
    files: ReloadFiles<Seq<u8>>,
    events: Seq<ReloadEvent<Seq<char>>>,
)
    ensures
        ({
            let run = ReloadRun::started(codes, files);
            &&& run.after_all(events).codes == codes
            &&& run.after_all(events).files == files
            &&& run.came_by(events, run.after_all(events).state)
        }),
    decreases events.len(),
{
    let run = ReloadRun::started(codes, files);
    if events.len() > 0 {
        let rest = events.drop_last();
        let before = run.after_all(rest);
        let now = run.after_all(events);
        lemma_history(codes, files, rest);
        lemma_came_by_stays(run, events, before.state);
        lemma_did_stays(run, events);
        let action = before.asks();
        let event = events.last();
        assert(run.did(events, action, event));
        if let ReloadEvent::Done(Ok(unit)) = event {
            assert(event == ReloadEvent::<Seq<char>>::Done(Ok(())));
        }
        if let ReloadEvent::Done(Err(e)) = event {
            if action is Notify || action is WriteProgress || action is Log {
                assert(run.untold(events, e));
            }
        }
        if let ReloadEvent::Swapped { result: Ok(unit), running } = event {
            assert(unit == ());
            assert(event == ReloadEvent::<Seq<char>>::Swapped { result: Ok(()), running });
        }
        if let ReloadAction::WriteProgress { path, code, suffix } = action {
            assert(path == files.progress_file);
            if codes.is_final(code) && event == ReloadEvent::<Seq<char>>::Done(Ok(())) {
                assert(run.reported(events));
            }
        }
        assert(run.came_by(events, now.state));
    }
}

/// A reload that ends well has said so in the progress file, one way or the other, and has told the
/// service manager that the service is up again, unless the service is going down.
pub proof fn law_reload_is_always_reported(
    codes: ReloadCodes,
    files: ReloadFiles<Seq<u8>>,
    events: Seq<ReloadEvent<Seq<char>>>,
)
    requires
        ReloadRun::started(codes, files).after_all(events).asks() == ReloadAction::<
            Seq<char>,
            Seq<u8>,
        >::Return(Ok(())),
    ensures
        ReloadRun::started(codes, files).reported(events),
        ReloadRun::started(codes, files).announced(events) || ReloadRun::started(
            codes,
            files,
        ).cancelled(events),
{
    lemma_history(codes, files, events);
}

/// A reload fails only where nobody could be told how it went, or where there is no runtime left;
/// and then that has been written to the progress file.
pub proof fn law_reload_fails_only_without_a_runtime(
    codes: ReloadCodes,
    files: ReloadFiles<Seq<u8>>,
    events: Seq<ReloadEvent<Seq<char>>>,
    error: Seq<char>,
)
    requires
        ReloadRun::started(codes, files).after_all(events).asks() == ReloadAction::<
            Seq<char>,
            Seq<u8>,
        >::Return(Err(error)),
    ensures
        ({
            let run = ReloadRun::started(codes, files);
            run.untold(events, error) || run.lost(events, error) && run.reported(events)
        }),
{
    lemma_history(codes, files, events);
}

impl ReloadRun<Seq<char>, Seq<u8>> {
    /// A reload that stands at `state` is to fail with `error`, or has failed, with that or because
    /// somebody could not be told.
    pub open spec fn is_to_fail(
        self,
        events: Seq<ReloadEvent<Seq<char>>>,
        state: ReloadState<Seq<char>>,
        error: Seq<char>,
    ) -> bool {
        match state {
            ReloadState::Reporting { code, suffix, log, result } => log is Some && result == Err::<
                (),
                _,
            >(error),
            ReloadState::Logging { message, result } => result == Err::<(), _>(error),
            ReloadState::CheckingReady { result } => result == Err::<(), _>(error),
            ReloadState::AnnouncingReady { result } => result == Err::<(), _>(error),
            ReloadState::Finished(Err(e)) => e == error || self.untold(events, e),
            _ => false,
        }
    }
}

/// A reload that lost the runtime is to fail because of that.
proof fn lemma_loss_is_kept(
    codes: ReloadCodes,
    files: ReloadFiles<Seq<u8>>,
    events: Seq<ReloadEvent<Seq<char>>>,
    error: Seq<char>,
)
    requires
        ReloadRun::started(codes, files).lost(events, error),
    ensures
        ({
            let run = ReloadRun::started(codes, files);
            run.is_to_fail(events, run.after_all(events).state, error)
        }),
    decreases events.len(),
{
    let run = ReloadRun::started(codes, files);
    if events.len() > 0 {
        let rest = events.drop_last();
        let before = run.after_all(rest);
        let event = events.last();
        lemma_did_stays(run, events);
        lemma_history(codes, files, rest);
        if run.lost(rest, error) {
            lemma_loss_is_kept(codes, files, rest, error);
            if let ReloadState::Finished(Err(e)) = before.state {
                if run.untold(rest, e) {
                    lemma_untold_stays(run, events, e);
                }
            }
            if let ReloadEvent::Done(Err(e)) = event {
                let action = before.asks();
                assert(run.did(events, action, event));
                if action is Notify || action is WriteProgress || action is Log {
                    assert(run.untold(events, e));
                }
            }
        }
    }
}

/// Who could not be told before an event could not be told after it either.
proof fn lemma_untold_stays(
    run: ReloadRun<Seq<char>, Seq<u8>>,
    events: Seq<ReloadEvent<Seq<char>>>,
    error: Seq<char>,
)
    requires
        events.len() > 0,
        run.untold(events.drop_last(), error),
    ensures
        run.untold(events, error),
{
    lemma_did_stays(run, events);
    let action = choose|action: ReloadAction<Seq<char>, Seq<u8>>|
        (action is Notify || action is WriteProgress || action is Log) && #[trigger] run.did(
            events.drop_last(),
            action,
            ReloadEvent::Done(Err(error)),
        );
    assert(run.did(events, action, ReloadEvent::Done(Err(error))));
}

/// Where everybody can be told, a reload fails if and only if it came to replace the runtime and
/// both starts failed, the one with the next configuration and the one with the previous; and then
/// it says why each of them did. `swap` is what the replacement was told, whose outcome is what the
/// reload is told of it.
pub proof fn law_reload_fails_exactly_where_both_starts_failed(
    codes: ReloadCodes,
    files: ReloadFiles<Seq<u8>>,
    events: Seq<ReloadEvent<Seq<char>>>,
    swap: Seq<SwapEvent<Seq<char>>>,
    result: Result<(), Seq<char>>,
)
    requires
        ReloadRun::started(codes, files).after_all(events).asks() == ReloadAction::<
            Seq<char>,
            Seq<u8>,
        >::Return(result),
        forall|e: Seq<char>| !ReloadRun::started(codes, files).untold(events, e),
        forall|r: Result<(), Seq<char>>, running: bool| #[trigger]
            ReloadRun::started(codes, files).swapped(events, r, running)
                ==> SwapRun::started().ended(swap, r, running),
    ensures
        ({
            let run = ReloadRun::started(codes, files);
            &&& result is Err <==> (exists|r: Result<(), Seq<char>>, running: bool|
                run.swapped(events, r, running)) && (exists|e: Seq<char>, f: Seq<char>|
                SwapRun::started().both_failed(swap, e, f))
            &&& result matches Err(x) ==> exists|e: Seq<char>, f: Seq<char>| #[trigger]
                SwapRun::started().both_failed(swap, e, f) && x == runtime::lost_message(e, f)
        }),
{
    let run = ReloadRun::started(codes, files);
    lemma_history(codes, files, events);
    if let Err(x) = result {
        assert(run.lost(events, x));
        assert(run.swapped(events, Err(x), false));
        runtime::law_runtime_is_lost_exactly_where_both_starts_failed(swap, Err(x), false);
    }
    if exists|r: Result<(), Seq<char>>, running: bool| run.swapped(events, r, running) {
        let (r, running) = choose|r: Result<(), Seq<char>>, running: bool|
            run.swapped(events, r, running);
        runtime::law_runtime_is_lost_exactly_where_both_starts_failed(swap, r, running);
        if exists|e: Seq<char>, f: Seq<char>| SwapRun::started().both_failed(swap, e, f) {
            let x = r->Err_0;
            assert(run.lost(events, x));
            lemma_loss_is_kept(codes, files, events, x);
        }
    }
}

/// The progress file says that a reload succeeded only where the runtime has been replaced.
pub proof fn law_success_is_reported_only_after_the_swap(
    codes: ReloadCodes,
    files: ReloadFiles<Seq<u8>>,
    events: Seq<ReloadEvent<Seq<char>>>,
    suffix: Seq<char>,
)
    requires
        codes.distinct(),
        ReloadRun::started(codes, files).after_all(events).asks() == (ReloadAction::<
            Seq<char>,
            Seq<u8>,
        >::WriteProgress { path: files.progress_file, code: codes.done, suffix }),
    ensures
        ReloadRun::started(codes, files).replaced(events),
{
    lemma_history(codes, files, events);
}

/// The runtime is touched only where the new configuration has been loaded and checked, there is a
/// network if it wants one, and the service is not going down.
pub proof fn law_runtime_is_touched_last(
    codes: ReloadCodes,
    files: ReloadFiles<Seq<u8>>,
    events: Seq<ReloadEvent<Seq<char>>>,
)
    requires
        ReloadRun::started(codes, files).after_all(events).asks() is SwapRuntime,
    ensures
        ({
            let run = ReloadRun::started(codes, files);
            &&& run.prepared(events)
            &&& run.did(events, ReloadAction::CheckCancelled, ReloadEvent::Cancelled(false))
            &&& run.did(events, ReloadAction::ValidateConfig, ReloadEvent::Done(Ok(())))
        }),
{
    lemma_history(codes, files, events);
}

impl ReloadRun<Seq<char>, Seq<u8>> {
    /// How many answers are at most still to come.
    pub open spec fn answers_left(self) -> nat {
        match self.state {
            ReloadState::Announcing => 12,
            ReloadState::Marking => 11,
            ReloadState::ClearingAbort => 10,
            ReloadState::Loading => 9,
            ReloadState::WaitingForNetwork => 8,
            ReloadState::CheckingCancel => 7,
            ReloadState::Validating => 6,
            ReloadState::Swapping => 5,
            ReloadState::Reporting { .. } => 4,
            ReloadState::Logging { .. } => 3,
            ReloadState::CheckingReady { .. } => 2,
            ReloadState::AnnouncingReady { .. } => 1,
            ReloadState::Finished(_) => 0,
        }
    }
}

/// A reload comes to its end: every event that changes it brings it closer, and it is over when no
/// answer is left to come.
pub proof fn law_reload_ends(run: ReloadRun<Seq<char>, Seq<u8>>, event: ReloadEvent<Seq<char>>)
    ensures
        run.after(event) == run || run.after(event).answers_left() < run.answers_left(),
        run.answers_left() == 0 <==> run.asks() is Return,
{
}

/// Where a request to suspend stands. Texts are `T`.
#[derive(Debug)]
pub enum SuspendState<T> {
    /// The service manager is being told that something goes on.
    Announcing,
    /// The progress file is being told that something goes on.
    Marking,
    /// The file that asks for connections to be cut is being removed.
    ClearingAbort,
    /// The progress file is being told that there is no suspending.
    Rejecting,
    /// The log is being told.
    Logging,
    /// The service manager is being told that the service is up.
    AnnouncingReady,
    /// The request is answered.
    Finished(Result<(), T>),
}

/// A request to suspend, which is turned down. Texts are `T`, bytes are `B`.
#[derive(Debug)]
pub struct SuspendRun<T, B> {
    /// The bytes of the stages.
    pub codes: ReloadCodes,
    /// The files that it deals with.
    pub files: ReloadFiles<B>,
    /// Where the request stands.
    pub state: SuspendState<T>,
}

impl View for SuspendRun<String, Vec<u8>> {
    type V = SuspendRun<Seq<char>, Seq<u8>>;

    open spec fn view(&self) -> SuspendRun<Seq<char>, Seq<u8>> {
        SuspendRun {
            codes: self.codes,
            files: self.files@,
            state: match self.state {
                SuspendState::Announcing => SuspendState::Announcing,
                SuspendState::Marking => SuspendState::Marking,
                SuspendState::ClearingAbort => SuspendState::ClearingAbort,
                SuspendState::Rejecting => SuspendState::Rejecting,
                SuspendState::Logging => SuspendState::Logging,
                SuspendState::AnnouncingReady => SuspendState::AnnouncingReady,
                SuspendState::Finished(r) => SuspendState::Finished(views::done_view(r)),
            },
        }
    }
}

/// What is done about a request to suspend, in order.
pub open spec fn suspend_plan(codes: ReloadCodes, files: ReloadFiles<Seq<u8>>) -> Seq<
    ReloadAction<Seq<char>, Seq<u8>>,
> {
    seq![
        ReloadAction::Notify(Notice::Reloading),
        ReloadAction::WriteProgress {
            path: files.progress_file,
            code: codes.processing,
            suffix: seq![],
        },
        ReloadAction::RemoveAbortFile(files.abort_file),
        ReloadAction::WriteProgress {
            path: files.progress_file,
            code: codes.error,
            suffix: "\nsuspend runtime transition is not implemented by Rust service contract"@,
        },
        ReloadAction::Log("suspend rejected"@),
        ReloadAction::Notify(Notice::Ready),
    ]
}

impl SuspendRun<Seq<char>, Seq<u8>> {
    /// A request that has just come in.
    pub open spec fn started(codes: ReloadCodes, files: ReloadFiles<Seq<u8>>) -> Self {
        SuspendRun { codes, files, state: SuspendState::Announcing }
    }

    /// What the request asks for.
    pub open spec fn asks(self) -> ReloadAction<Seq<char>, Seq<u8>> {
        let plan = suspend_plan(self.codes, self.files);
        match self.state {
            SuspendState::Announcing => plan[0],
            SuspendState::Marking => plan[1],
            SuspendState::ClearingAbort => plan[2],
            SuspendState::Rejecting => plan[3],
            SuspendState::Logging => plan[4],
            SuspendState::AnnouncingReady => plan[5],
            SuspendState::Finished(r) => ReloadAction::Return(r),
        }
    }

    /// Where the request stands once its present action has been done.
    pub open spec fn next(self) -> SuspendState<Seq<char>> {
        match self.state {
            SuspendState::Announcing => SuspendState::Marking,
            SuspendState::Marking => SuspendState::ClearingAbort,
            SuspendState::ClearingAbort => SuspendState::Rejecting,
            SuspendState::Rejecting => SuspendState::Logging,
            SuspendState::Logging => SuspendState::AnnouncingReady,
            SuspendState::AnnouncingReady => SuspendState::Finished(Ok(())),
            SuspendState::Finished(r) => SuspendState::Finished(r),
        }
    }

    /// The request after its action came to `done`: the first failure ends it, but for the file
    /// that asks for connections to be cut, which need not be there.
    pub open spec fn after(self, done: Result<(), Seq<char>>) -> Self {
        SuspendRun {
            state: match done {
                Err(e) if !(self.state is ClearingAbort) && !(self.state is Finished) =>
                    SuspendState::Finished(Err(e)),
                _ => self.next(),
            },
            ..self
        }
    }

    /// The request after `n` actions, all of which succeeded.
    pub open spec fn after_successes(self, n: nat) -> Self
        decreases n,
    {
        if n == 0 {
            self
        } else {
            self.after_successes((n - 1) as nat).after(Ok(()))
        }
    }
}

/// Takes in a request to suspend.
pub fn handle_suspend_compatibility(codes: ReloadCodes, files: ReloadFiles<Vec<u8>>) -> (run:
    SuspendRun<String, Vec<u8>>)
    ensures
        run@ == SuspendRun::started(codes, files@),
{
    SuspendRun { codes, files, state: SuspendState::Announcing }
}

impl SuspendRun<String, Vec<u8>> {
    /// What the request asks for.
    pub fn action(&self) -> (action: ReloadAction<String, Vec<u8>>)
        ensures
            action@ == self@.asks(),
    {
        match &self.state {
            SuspendState::Announcing => ReloadAction::Notify(Notice::Reloading),
            SuspendState::Marking => ReloadAction::WriteProgress {
                path: copy_bytes(&self.files.progress_file),
                code: self.codes.processing,
                suffix: String::new(),
            },
            SuspendState::ClearingAbort => ReloadAction::RemoveAbortFile(
                copy_bytes(&self.files.abort_file),
            ),
            SuspendState::Rejecting => ReloadAction::WriteProgress {
                path: copy_bytes(&self.files.progress_file),
                code: self.codes.error,
                suffix:
                    "\nsuspend runtime transition is not implemented by Rust service contract".to_owned(),
            },
            SuspendState::Logging => ReloadAction::Log("suspend rejected".to_owned()),
            SuspendState::AnnouncingReady => ReloadAction::Notify(Notice::Ready),
            SuspendState::Finished(r) => ReloadAction::Return(copy_done(r)),
        }
    }

    /// Tells the request what came of its action.
    pub fn tell(self, done: Result<(), String>) -> (run: Self)
        ensures
            run@ == self@.after(views::done_view(done)),
    {
        let codes = self.codes;
        let files = self.files;
        let state: SuspendState<String> = match (self.state, done) {
            (SuspendState::Finished(r), _) => SuspendState::Finished(r),
            (SuspendState::ClearingAbort, _) => SuspendState::Rejecting,
            (_, Err(e)) => SuspendState::Finished(Err(e)),
            (SuspendState::Announcing, Ok(())) => SuspendState::Marking,
            (SuspendState::Marking, Ok(())) => SuspendState::ClearingAbort,
            (SuspendState::Rejecting, Ok(())) => SuspendState::Logging,
            (SuspendState::Logging, Ok(())) => SuspendState::AnnouncingReady,
            (SuspendState::AnnouncingReady, Ok(())) => SuspendState::Finished(Ok(())),
        };
        SuspendRun { codes, files, state }
    }
}

/// Where nothing fails, a request to suspend asks for its plan, action by action, and is then
/// answered.
pub proof fn law_suspend_follows_its_plan(codes: ReloadCodes, files: ReloadFiles<Seq<u8>>, n: nat)
    requires
        n <= suspend_plan(codes, files).len(),
    ensures
        ({
            let plan = suspend_plan(codes, files);
            let run = SuspendRun::started(codes, files).after_successes(n);
            run.asks() == (if n < plan.len() {
                plan[n as int]
            } else {
                ReloadAction::Return(Ok(()))
            })
        }),
{
    reveal_with_fuel(SuspendRun::after_successes, 7);
}

/// `run` asks for `action`, and ends with the error where that fails.
pub open spec fn must_do(
    run: ReloadRun<Seq<char>, Seq<u8>>,
    action: ReloadAction<Seq<char>, Seq<u8>>,
) -> bool {
    &&& run.asks() == action
    &&& forall|e: Seq<char>|
        (#[trigger] run.after(ReloadEvent::Done(Err(e)))).asks() == ReloadAction::<
            Seq<char>,
            Seq<u8>,
        >::Return(Err(e))
}

/// From here on a reload writes `code` and `suffix` to the file at `path`, logs `message`, tells
/// the service manager that the service is up unless it is going down, and ends with `result`.
pub open spec fn closes(
    run: ReloadRun<Seq<char>, Seq<u8>>,
    path: Seq<u8>,
    code: u8,
    suffix: Seq<char>,
    message: Seq<char>,
    result: Result<(), Seq<char>>,
) -> bool {
    let logging = run.after(ReloadEvent::Done(Ok(())));
    let checking = logging.after(ReloadEvent::Done(Ok(())));
    let going_down = checking.after(ReloadEvent::Cancelled(true));
    let announcing = checking.after(ReloadEvent::Cancelled(false));
    let over = announcing.after(ReloadEvent::Done(Ok(())));
    &&& must_do(run, ReloadAction::WriteProgress { path, code, suffix })
    &&& must_do(logging, ReloadAction::Log(message))
    &&& checking.asks() is CheckCancelled
    &&& going_down.asks() == ReloadAction::<Seq<char>, Seq<u8>>::Return(result)
    &&& must_do(announcing, ReloadAction::Notify(Notice::Ready))
    &&& over.asks() == ReloadAction::<Seq<char>, Seq<u8>>::Return(result)
}

/// A reload that has told the service manager and the progress file of itself, where removing the
/// abort file came to `removed`.
pub open spec fn under_way(
    codes: ReloadCodes,
    files: ReloadFiles<Seq<u8>>,
    removed: Result<(), Seq<char>>,
) -> ReloadRun<Seq<char>, Seq<u8>> {
    ReloadRun::started(codes, files).after(ReloadEvent::Done(Ok(()))).after(
        ReloadEvent::Done(Ok(())),
    ).after(ReloadEvent::Done(removed))
}

/// Such a reload that has loaded a configuration, which asks not to wait for the network or has
/// been given one.
pub open spec fn loaded_with(
    codes: ReloadCodes,
    files: ReloadFiles<Seq<u8>>,
    removed: Result<(), Seq<char>>,
    disable_waiting: bool,
) -> ReloadRun<Seq<char>, Seq<u8>> {
    let loaded = under_way(codes, files, removed).after(ReloadEvent::Loaded(Ok(disable_waiting)));
    if disable_waiting {
        loaded
    } else {
        loaded.after(ReloadEvent::Done(Ok(())))
    }
}

/// A reload tells the service manager first, then the progress file, then removes the file that
/// asks for connections to be cut, and then loads the configuration: whatever came of that removal.
pub proof fn law_reload_begins(
    codes: ReloadCodes,
    files: ReloadFiles<Seq<u8>>,
    removed: Result<(), Seq<char>>,
)
    ensures
        ({
            let first = ReloadRun::started(codes, files);
            let second = first.after(ReloadEvent::Done(Ok(())));
            let third = second.after(ReloadEvent::Done(Ok(())));
            &&& must_do(first, ReloadAction::Notify(Notice::Reloading))
            &&& must_do(
                second,
                ReloadAction::WriteProgress {
                    path: files.progress_file,
                    code: codes.processing,
                    suffix: seq![],
                },
            )
            &&& third.asks() == ReloadAction::<Seq<char>, _>::RemoveAbortFile(files.abort_file)
            &&& third.after(ReloadEvent::Done(removed)).asks() == ReloadAction::<
                Seq<char>,
                _,
            >::LoadConfig(files.config)
        }),
{
}

/// Wherever a reload has the abort file removed, it goes on to load its configuration, whether or
/// not there was one to remove.
pub proof fn law_abort_file_does_not_matter(
    run: ReloadRun<Seq<char>, Seq<u8>>,
    removed: Result<(), Seq<char>>,
)
    requires
        run.asks() is RemoveAbortFile,
    ensures
        run.after(ReloadEvent::Done(removed)).asks() == ReloadAction::<Seq<char>, _>::LoadConfig(
            run.files.config,
        ),
{
}

/// A configuration that cannot be loaded is reported as it is, and the service stays as it was. One
/// that can be is taken on once there is a network, unless it asks not to wait for that; where the
/// wait fails, that is reported. Either way the next question is whether the reload is cancelled.
pub proof fn law_reload_loads_and_waits(
    codes: ReloadCodes,
    files: ReloadFiles<Seq<u8>>,
    removed: Result<(), Seq<char>>,
    disable_waiting: bool,
    e: Seq<char>,
)
    ensures
        ({
            let run = under_way(codes, files, removed);
            let waiting = run.after(ReloadEvent::Loaded(Ok(false)));
            &&& closes(
                run.after(ReloadEvent::Loaded(Err(e))),
                files.progress_file,
                codes.error,
                "\n"@ + e,
                "reload failed"@,
                Ok(()),
            )
            &&& waiting.asks() is WaitForNetwork
            &&& closes(
                waiting.after(ReloadEvent::Done(Err(e))),
                files.progress_file,
                codes.error,
                "\nwaiting for network before reload failed: "@ + e,
                "reload failed while waiting for network"@,
                Ok(()),
            )
            &&& loaded_with(codes, files, removed, disable_waiting).asks() is CheckCancelled
        }),
{
}

/// A reload that is cancelled before it touches the runtime says so in the progress file, and ends
/// without a word to the log or to the service manager.
pub proof fn law_cancelled_reload_says_so(
    codes: ReloadCodes,
    files: ReloadFiles<Seq<u8>>,
    removed: Result<(), Seq<char>>,
    disable_waiting: bool,
)
    ensures
        ({
            let cancelled = loaded_with(codes, files, removed, disable_waiting).after(
                ReloadEvent::Cancelled(true),
            );
            &&& must_do(
                cancelled,
                ReloadAction::WriteProgress {
                    path: files.progress_file,
                    code: codes.error,
                    suffix: "\nreload cancelled by service shutdown"@,
                },
            )
            &&& cancelled.after(ReloadEvent::Done(Ok(()))).asks() == ReloadAction::<
                Seq<char>,
                Seq<u8>,
            >::Return(Ok(()))
        }),
{
}

/// A reload that is not cancelled comes to replace the runtime, and reports success once that has
/// succeeded: whatever came of the abort file, and whether or not it had to wait for the network.
pub proof fn law_reload_comes_to_its_end(
    codes: ReloadCodes,
    files: ReloadFiles<Seq<u8>>,
    removed: Result<(), Seq<char>>,
    disable_waiting: bool,
    running: bool,
    e: Seq<char>,
)
    ensures
        ({
            let validating = loaded_with(codes, files, removed, disable_waiting).after(
                ReloadEvent::Cancelled(false),
            );
            let swapping = validating.after(ReloadEvent::Done(Ok(())));
            &&& validating.asks() is ValidateConfig
            &&& closes(
                validating.after(ReloadEvent::Done(Err(e))),
                files.progress_file,
                codes.error,
                "\n"@ + e,
                "reload failed"@,
                Ok(()),
            )
            &&& swapping.asks() == ReloadAction::<Seq<char>, _>::SwapRuntime {
                asset_dir: paths::asset_dir(files.config),
            }
            &&& closes(
                swapping.after(ReloadEvent::Swapped { result: Ok(()), running }),
                files.progress_file,
                codes.done,
                "\nOK"@,
                "reload completed"@,
                Ok(()),
            )
            &&& closes(
                swapping.after(ReloadEvent::Swapped { result: Err(e), running: true }),
                files.progress_file,
                codes.error,
                "\n"@ + e,
                "reload failed"@,
                Ok(()),
            )
            &&& closes(
                swapping.after(ReloadEvent::Swapped { result: Err(e), running: false }),
                files.progress_file,
                codes.error,
                "\n"@ + e,
                "reload failed"@,
                Err(e),
            )
        }),
{
}

/// What does not answer the question of a reload changes nothing, and neither does anything that it
/// is told once it is over. Its settings never change.
pub proof fn law_reload_hears_only_answers(
    run: ReloadRun<Seq<char>, Seq<u8>>,
    event: ReloadEvent<Seq<char>>,
)
    ensures
        run.after(event).codes == run.codes,
        run.after(event).files == run.files,
        !(match run.asks() {
            ReloadAction::LoadConfig(_) => event is Loaded,
            ReloadAction::CheckCancelled => event is Cancelled,
            ReloadAction::SwapRuntime { asset_dir } => event is Swapped,
            ReloadAction::Return(_) => false,
            _ => event is Done,
        }) ==> run.after(event) == run,
{
}

/// A request to suspend tells the service manager and the progress file of itself, has the abort
/// file removed, whatever comes of that, and is then turned down: the progress file and the log are
/// told so, and the service manager that the service is up. It ends well unless one of these cannot
/// be told.
pub proof fn law_suspend_is_turned_down(
    codes: ReloadCodes,
    files: ReloadFiles<Seq<u8>>,
    removed: Result<(), Seq<char>>,
    e: Seq<char>,
)
    ensures
        ({
            let first = SuspendRun::started(codes, files);
            let second = first.after(Ok(()));
            let third = second.after(Ok(()));
            let fourth = third.after(removed);
            let fifth = fourth.after(Ok(()));
            let sixth = fifth.after(Ok(()));
            let over = sixth.after(Ok(()));
            let failed = ReloadAction::<Seq<char>, Seq<u8>>::Return(Err(e));
            &&& first.asks() == ReloadAction::<Seq<char>, Seq<u8>>::Notify(Notice::Reloading)
            &&& first.after(Err(e)).asks() == failed
            &&& second.asks() == ReloadAction::<Seq<char>, _>::WriteProgress {
                path: files.progress_file,
                code: codes.processing,
                suffix: seq![],
            }
            &&& second.after(Err(e)).asks() == failed
            &&& third.asks() == ReloadAction::<Seq<char>, _>::RemoveAbortFile(files.abort_file)
            &&& fourth.asks() == ReloadAction::<Seq<char>, _>::WriteProgress {
                path: files.progress_file,
                code: codes.error,
                suffix:
                    "\nsuspend runtime transition is not implemented by Rust service contract"@,
            }
            &&& fourth.after(Err(e)).asks() == failed
            &&& fifth.asks() == ReloadAction::<_, Seq<u8>>::Log("suspend rejected"@)
            &&& fifth.after(Err(e)).asks() == failed
            &&& sixth.asks() == ReloadAction::<Seq<char>, Seq<u8>>::Notify(Notice::Ready)
            &&& sixth.after(Err(e)).asks() == failed
            &&& over.asks() == ReloadAction::<Seq<char>, Seq<u8>>::Return(Ok(()))
            &&& over.after(removed) == over
            &&& first.after(Err(e)).after(removed) == first.after(Err(e))
        }),
{
}

/// What an action is shown to ask for is what it asks for, with everything that it holds.
pub proof fn law_action_is_shown_as_it_is(action: ReloadAction<String, Vec<u8>>)
    ensures
        match action {
            ReloadAction::Notify(notice) => action@
                == ReloadAction::<Seq<char>, Seq<u8>>::Notify(notice),
            ReloadAction::WriteProgress { path, code, suffix } => action@
                == (ReloadAction::<Seq<char>, Seq<u8>>::WriteProgress {
                    path: path@,
                    code,
                    suffix: suffix@,
                }),
            ReloadAction::RemoveAbortFile(path) => action@
                == ReloadAction::<Seq<char>, Seq<u8>>::RemoveAbortFile(path@),
            ReloadAction::LoadConfig(path) => action@
                == ReloadAction::<Seq<char>, Seq<u8>>::LoadConfig(path@),
            ReloadAction::WaitForNetwork => action@
                == ReloadAction::<Seq<char>, Seq<u8>>::WaitForNetwork,
            ReloadAction::CheckCancelled => action@
                == ReloadAction::<Seq<char>, Seq<u8>>::CheckCancelled,
            ReloadAction::ValidateConfig => action@
                == ReloadAction::<Seq<char>, Seq<u8>>::ValidateConfig,
            ReloadAction::SwapRuntime { asset_dir } => action@
                == (ReloadAction::<Seq<char>, Seq<u8>>::SwapRuntime { asset_dir: asset_dir@ }),
            ReloadAction::Log(message) => action@
                == ReloadAction::<Seq<char>, Seq<u8>>::Log(message@),
            ReloadAction::Return(r) => action@
                == ReloadAction::<Seq<char>, Seq<u8>>::Return(views::done_view(r)),
        },
{
}

/// What an event is shown to tell is what it tells, with everything that it holds.
pub proof fn law_event_is_shown_as_it_is(event: ReloadEvent<String>)
    ensures
        match event {
            ReloadEvent::Done(r) => event@ == ReloadEvent::<Seq<char>>::Done(views::done_view(r)),
            ReloadEvent::Loaded(r) => event@
                == ReloadEvent::<Seq<char>>::Loaded(views::number_view(r)),
            ReloadEvent::Cancelled(b) => event@ == ReloadEvent::<Seq<char>>::Cancelled(b),
            ReloadEvent::Swapped { result, running } => event@
                == (ReloadEvent::<Seq<char>>::Swapped {
                    result: views::done_view(result),
                    running,
                }),
        },
{
}

/// The files of a reload are shown as they are.
pub proof fn law_files_are_shown_as_they_are(files: ReloadFiles<Vec<u8>>)
    ensures
        files@.config == files.config@,
        files@.progress_file == files.progress_file@,
        files@.abort_file == files.abort_file@,
{
}

} // verus!
