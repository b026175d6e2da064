//! The life of the service: how it starts, what it does on a signal, and how it ends.

use crate::control_file::CONTROL_FILE_MODE;
use crate::decimal::{self, decimal_text};
use crate::notify::Notice;
use crate::paths::{self, resident_config_asset_dir};
use crate::progress::ReloadCodes;
use crate::signals::{self, ServiceSignal, SignalNumbers, service_signal};
use crate::views::{self, copy_bytes, copy_done, join2};
use vstd::prelude::*;

verus! {

/// How the service is to run. Bytes are `B`.
#[derive(Debug)]
pub struct RunOptions<B> {
    /// The bytes of the stages.
    pub codes: ReloadCodes,
    /// The numbers of the signals.
    pub signals: SignalNumbers,
    /// The number of this process.
    pub pid: u32,
    /// Do not run but as the superuser.
    pub disable_sudo: bool,
    /// Write no file that names the process.
    pub disable_pidfile: bool,
    /// The configuration.
    pub config: B,
    /// The progress file.
    pub progress_file: B,
    /// The file that names the process.
    pub pid_file: B,
    /// The file that says that the service is up, where there is to be one.
    pub ready_record_file: Option<B>,
}

/// Where the service stands. Texts are `T`.
#[derive(Debug)]
pub enum RunState<T> {
    /// Who runs it is wanted.
    CheckingUser,
    /// The signals are being blocked.
    BlockingSignals,
    /// The configuration is being loaded.
    LoadingConfig,
    /// The log of events is being set up.
    InstallingEventLog { disable_waiting: bool },
    /// The network is being waited for.
    WaitingForNetwork,
    /// The runtime is being started.
    StartingRuntime,
    /// The worker is being started.
    SpawningWorker,
    /// The file that names the process is being written.
    WritingPid,
    /// The progress file is being written.
    WritingProgress,
    /// The file that says that the service is up is being written.
    WritingReadyRecord,
    /// The log is being told that the service is up.
    LoggingReady,
    /// The service manager is being told that the service is up.
    AnnouncingReady,
    /// The worker is being ended because the start failed.
    AbortingWorker { error: T },
    /// A signal is being waited for.
    AwaitingSignal,
    /// The worker is being asked to reload.
    RequestingReload,
    /// A request to suspend is being answered.
    Suspending,
    /// The service manager is being told that the service goes down.
    AnnouncingStop,
    /// The log is being told that the service goes down.
    LoggingStop,
    /// The worker is being ended.
    StoppingWorker,
    /// The file that names the process is being removed.
    RemovingPid { result: Result<(), T> },
    /// The service is down.
    Finished(Result<(), T>),
}

/// A service. Texts are `T`, bytes are `B`.
#[derive(Debug)]
pub struct ServiceRun<T, B> {
    /// How it is to run.
    pub options: RunOptions<B>,
    /// Where it stands.
    pub state: RunState<T>,
}

/// What the service asks for. Texts are `T`, bytes are `B`.
#[derive(Debug)]
pub enum RunAction<T, B> {
    /// Say as whom this process runs.
    QueryUser,
    /// Block the signals that steer the service.
    BlockSignals,
    /// Load this configuration.
    LoadConfig(B),
    /// Set up the log of events.
    InstallEventLog,
    /// Wait until there is a network.
    WaitForNetwork,
    /// Start the runtime, which looks for its geodata in this directory.
    StartRuntime { asset_dir: B },
    /// Start the worker.
    SpawnWorker,
    /// Write this text to the file that names the process, with these access rights.
    WritePidFile { path: B, content: T, mode: u32 },
    /// Write the progress file.
    WriteProgress { path: B, code: u8, suffix: T },
    /// Write this text to the file that says that the service is up, with these access rights.
    WriteReadyRecord { path: B, content: T, mode: u32 },
    /// Write to the log.
    Log(T),
    /// Tell the service manager.
    Notify(Notice),
    /// Wait for a signal.
    AwaitSignal,
    /// Ask the worker to reload.
    RequestReload,
    /// Answer a request to suspend.
    HandleSuspend,
    /// End the worker.
    ShutdownWorker,
    /// Remove this file.
    RemovePidFile(B),
    /// The service is down, with this.
    Return(Result<(), T>),
}

/// What an action of the service came to. Texts are `T`.
#[derive(Debug)]
pub enum RunEvent<T> {
    /// This process runs as the user of this number.
    User(u32),
    /// The action succeeded or failed.
    Done(Result<(), T>),
    /// The configuration was loaded, and says whether not to wait for the network, or was not.
    Loaded(Result<bool, T>),
    /// A signal came.
    Signal(Result<i32, T>),
}

impl View for RunOptions<Vec<u8>> {
    type V = RunOptions<Seq<u8>>;

    open spec fn view(&self) -> RunOptions<Seq<u8>> {
        RunOptions {
            codes: self.codes,
            signals: self.signals,
            pid: self.pid,
            disable_sudo: self.disable_sudo,
            disable_pidfile: self.disable_pidfile,
            config: self.config@,
            progress_file: self.progress_file@,
            pid_file: self.pid_file@,
            ready_record_file: match self.ready_record_file {
                Some(path) => Some(path@),
                None => None,
            },
        }
    }
}

/// The view of where a service stands.
pub open spec fn run_state_view(state: RunState<String>) -> RunState<Seq<char>> {
    match state {
        RunState::CheckingUser => RunState::CheckingUser,
        RunState::BlockingSignals => RunState::BlockingSignals,
        RunState::LoadingConfig => RunState::LoadingConfig,
        RunState::InstallingEventLog { disable_waiting } => RunState::InstallingEventLog {
            disable_waiting,
        },
        RunState::WaitingForNetwork => RunState::WaitingForNetwork,
        RunState::StartingRuntime => RunState::StartingRuntime,
        RunState::SpawningWorker => RunState::SpawningWorker,
        RunState::WritingPid => RunState::WritingPid,
        RunState::WritingProgress => RunState::WritingProgress,
        RunState::WritingReadyRecord => RunState::WritingReadyRecord,
        RunState::LoggingReady => RunState::LoggingReady,
        RunState::AnnouncingReady => RunState::AnnouncingReady,
        RunState::AbortingWorker { error } => RunState::AbortingWorker { error: error@ },
        RunState::AwaitingSignal => RunState::AwaitingSignal,
        RunState::RequestingReload => RunState::RequestingReload,
        RunState::Suspending => RunState::Suspending,
        RunState::AnnouncingStop => RunState::AnnouncingStop,
        RunState::LoggingStop => RunState::LoggingStop,
        RunState::StoppingWorker => RunState::StoppingWorker,
        RunState::RemovingPid { result } => RunState::RemovingPid { result: views::done_view(result) },
        RunState::Finished(r) => RunState::Finished(views::done_view(r)),
    }
}

impl View for ServiceRun<String, Vec<u8>> {
    type V = ServiceRun<Seq<char>, Seq<u8>>;

    open spec fn view(&self) -> ServiceRun<Seq<char>, Seq<u8>> {
        ServiceRun { options: self.options@, state: run_state_view(self.state) }
    }
}

impl View for RunAction<String, Vec<u8>> {
    type V = RunAction<Seq<char>, Seq<u8>>;

    open spec fn view(&self) -> RunAction<Seq<char>, Seq<u8>> {
        match self {
            RunAction::QueryUser => RunAction::QueryUser,
            RunAction::BlockSignals => RunAction::BlockSignals,
            RunAction::LoadConfig(path) => RunAction::LoadConfig(path@),
            RunAction::InstallEventLog => RunAction::InstallEventLog,
            RunAction::WaitForNetwork => RunAction::WaitForNetwork,
            RunAction::StartRuntime { asset_dir } => RunAction::StartRuntime {
                asset_dir: asset_dir@,
            },
            RunAction::SpawnWorker => RunAction::SpawnWorker,
            RunAction::WritePidFile { path, content, mode } => RunAction::WritePidFile {
                path: path@,
                content: content@,
                mode: *mode,
            },
            RunAction::WriteProgress { path, code, suffix } => RunAction::WriteProgress {
                path: path@,
                code: *code,
                suffix: suffix@,
            },
            RunAction::WriteReadyRecord { path, content, mode } => RunAction::WriteReadyRecord {
                path: path@,
                content: content@,
                mode: *mode,
            },
            RunAction::Log(message) => RunAction::Log(message@),
            RunAction::Notify(notice) => RunAction::Notify(*notice),
            RunAction::AwaitSignal => RunAction::AwaitSignal,
            RunAction::RequestReload => RunAction::RequestReload,
            RunAction::HandleSuspend => RunAction::HandleSuspend,
            RunAction::ShutdownWorker => RunAction::ShutdownWorker,
            RunAction::RemovePidFile(path) => RunAction::RemovePidFile(path@),
            RunAction::Return(r) => RunAction::Return(views::done_view(*r)),
        }
    }
}

impl View for RunEvent<String> {
    type V = RunEvent<Seq<char>>;

    open spec fn view(&self) -> RunEvent<Seq<char>> {
        match self {
            RunEvent::User(id) => RunEvent::User(*id),
            RunEvent::Done(r) => RunEvent::Done(views::done_view(*r)),
            RunEvent::Loaded(r) => RunEvent::Loaded(views::number_view(*r)),
            RunEvent::Signal(r) => RunEvent::Signal(views::number_view(*r)),
        }
    }
}

impl ServiceRun<Seq<char>, Seq<u8>> {
    /// A service that is about to start.
    pub open spec fn started(options: RunOptions<Seq<u8>>) -> Self {
        ServiceRun {
            options,
            state: if options.disable_sudo {
                RunState::CheckingUser
            } else {
                RunState::BlockingSignals
            },
        }
    }

    /// The same service at another point.
    pub open spec fn at(self, state: RunState<Seq<char>>) -> Self {
        ServiceRun { state, ..self }
    }

    /// The service where an action that has to succeed came to `done`.
    pub open spec fn must(self, done: Result<(), Seq<char>>, next: RunState<Seq<char>>) -> Self {
        match done {
            Ok(()) => self.at(next),
            Err(e) => self.at(RunState::Finished(Err(e))),
        }
    }

    /// The service where an action that has to succeed once the worker is there came to `done`.
    pub open spec fn must_with_worker(
        self,
        done: Result<(), Seq<char>>,
        next: RunState<Seq<char>>,
    ) -> Self {
        match done {
            Ok(()) => self.at(next),
            Err(e) => self.at(RunState::AbortingWorker { error: e }),
        }
    }

    /// The service at its end, with the file that names the process to be removed if it wrote one.
    pub open spec fn cleaned_up(self, result: Result<(), Seq<char>>) -> Self {
        self.at(
            if self.options.disable_pidfile {
                RunState::Finished(result)
            } else {
                RunState::RemovingPid { result }
            },
        )
    }

    /// What the service asks for.
    pub open spec fn asks(self) -> RunAction<Seq<char>, Seq<u8>> {
        match self.state {
            RunState::CheckingUser => RunAction::QueryUser,
            RunState::BlockingSignals => RunAction::BlockSignals,
            RunState::LoadingConfig => RunAction::LoadConfig(self.options.config),
            RunState::InstallingEventLog { disable_waiting } => RunAction::InstallEventLog,
            RunState::WaitingForNetwork => RunAction::WaitForNetwork,
            RunState::StartingRuntime => RunAction::StartRuntime {
                asset_dir: paths::asset_dir(self.options.config),
            },
            RunState::SpawningWorker => RunAction::SpawnWorker,
            RunState::WritingPid => RunAction::WritePidFile {
                path: self.options.pid_file,
                content: decimal::decimal(self.options.pid as nat),
                mode: CONTROL_FILE_MODE,
            },
            RunState::WritingProgress => RunAction::WriteProgress {
                path: self.options.progress_file,
                code: self.options.codes.done,
                suffix: seq![],
            },
            RunState::WritingReadyRecord => RunAction::WriteReadyRecord {
                path: match self.options.ready_record_file {
                    Some(path) => path,
                    None => seq![],
                },
                content: "READY=1\n"@,
                mode: CONTROL_FILE_MODE,
            },
            RunState::LoggingReady => RunAction::Log("service ready"@),
            RunState::AnnouncingReady => RunAction::Notify(Notice::Ready),
            RunState::AbortingWorker { error } => RunAction::ShutdownWorker,
            RunState::AwaitingSignal => RunAction::AwaitSignal,
            RunState::RequestingReload => RunAction::RequestReload,
            RunState::Suspending => RunAction::HandleSuspend,
            RunState::AnnouncingStop => RunAction::Notify(Notice::Stopping),
            RunState::LoggingStop => RunAction::Log("service stopping"@),
            RunState::StoppingWorker => RunAction::ShutdownWorker,
            RunState::RemovingPid { result } => RunAction::RemovePidFile(self.options.pid_file),
            RunState::Finished(r) => RunAction::Return(r),
        }
    }

    /// The service after it has been told `event`. An event that answers nothing asked for changes
    /// nothing.
    pub open spec fn after(self, event: RunEvent<Seq<char>>) -> Self {
        match (self.state, event) {
            (RunState::CheckingUser, RunEvent::User(id)) => self.at(
                if id == 0 {
                    RunState::BlockingSignals
                } else {
                    RunState::Finished(
                        Err("auto-sudo is disabled and current user is not root"@),
                    )
                },
            ),
            (RunState::BlockingSignals, RunEvent::Done(done)) => self.must(
                done,
                RunState::LoadingConfig,
            ),
            (RunState::LoadingConfig, RunEvent::Loaded(loaded)) => self.at(
                match loaded {
                    Ok(disable_waiting) => RunState::InstallingEventLog { disable_waiting },
                    Err(e) => RunState::Finished(
                        Err("resident run config validation failed: "@ + e),
                    ),
                },
            ),
            (RunState::InstallingEventLog { disable_waiting }, RunEvent::Done(_)) => self.at(
                if disable_waiting {
                    RunState::StartingRuntime
                } else {
                    RunState::WaitingForNetwork
                },
            ),
            (RunState::WaitingForNetwork, RunEvent::Done(done)) => self.at(
                match done {
                    Ok(()) => RunState::StartingRuntime,
                    Err(e) => RunState::Finished(
                        Err("waiting for network before subscriptions failed: "@ + e),
                    ),
                },
            ),
            (RunState::StartingRuntime, RunEvent::Done(done)) => self.must(
                done,
                RunState::SpawningWorker,
            ),
            (RunState::SpawningWorker, RunEvent::Done(done)) => self.must(
                done,
                if self.options.disable_pidfile {
                    RunState::WritingProgress
                } else {
                    RunState::WritingPid
                },
            ),
            (RunState::WritingPid, RunEvent::Done(done)) => self.must_with_worker(
                done,
                RunState::WritingProgress,
            ),
            (RunState::WritingProgress, RunEvent::Done(done)) => self.must_with_worker(
                done,
                if self.options.ready_record_file is Some {
                    RunState::WritingReadyRecord
                } else {
                    RunState::LoggingReady
                },
            ),
            (RunState::WritingReadyRecord, RunEvent::Done(done)) => self.must_with_worker(
                done,
                RunState::LoggingReady,
            ),
            (RunState::LoggingReady, RunEvent::Done(done)) => self.must_with_worker(
                done,
                RunState::AnnouncingReady,
            ),
            (RunState::AnnouncingReady, RunEvent::Done(done)) => self.must_with_worker(
                done,
                RunState::AwaitingSignal,
            ),
            (RunState::AbortingWorker { error }, RunEvent::Done(_)) => self.cleaned_up(Err(error)),
            (RunState::AwaitingSignal, RunEvent::Signal(signal)) => self.at(
                match signal {
                    Err(e) => RunState::Finished(Err(e)),
                    Ok(number) => match signals::signal_meaning(self.options.signals, number) {
                        ServiceSignal::Reload => RunState::RequestingReload,
                        ServiceSignal::Suspend => RunState::Suspending,
                        ServiceSignal::Stop => RunState::AnnouncingStop,
                        ServiceSignal::Ignore => RunState::AwaitingSignal,
                    },
                },
            ),
            (RunState::RequestingReload, RunEvent::Done(done)) => self.must(
                done,
                RunState::AwaitingSignal,
            ),
            (RunState::Suspending, RunEvent::Done(done)) => self.must(
                done,
                RunState::AwaitingSignal,
            ),
            (RunState::AnnouncingStop, RunEvent::Done(_)) => self.at(RunState::LoggingStop),
            (RunState::LoggingStop, RunEvent::Done(_)) => self.at(RunState::StoppingWorker),
            (RunState::StoppingWorker, RunEvent::Done(done)) => self.cleaned_up(done),
            (RunState::RemovingPid { result }, RunEvent::Done(_)) => self.at(
                RunState::Finished(result),
            ),
            _ => self,
        }
    }

    /// The service after it has been told all of `events`, one after the other.
    pub open spec fn after_all(self, events: Seq<RunEvent<Seq<char>>>) -> Self
        decreases events.len(),
    {
        if events.len() == 0 {
            self
        } else {
            self.after_all(events.drop_last()).after(events.last())
        }
    }

    /// At the event numbered `i`, the service asked for `action` and was told `event`.
    pub open spec fn told(
        self,
        events: Seq<RunEvent<Seq<char>>>,
        i: int,
        action: RunAction<Seq<char>, Seq<u8>>,
        event: RunEvent<Seq<char>>,
    ) -> bool {
        &&& 0 <= i < events.len()
        &&& self.after_all(events.take(i)).asks() == action
        &&& events[i] == event
    }

    /// At some point the service asked for `action` and was told `event`.
    pub open spec fn did(
        self,
        events: Seq<RunEvent<Seq<char>>>,
        action: RunAction<Seq<char>, Seq<u8>>,
        event: RunEvent<Seq<char>>,
    ) -> bool {
        exists|i: int| self.told(events, i, action, event)
    }
}

/// Where the service goes on when an action that has to succeed came to `done`.
fn must(done: Result<(), String>, next: RunState<String>) -> (state: RunState<String>)
    ensures
        run_state_view(state) == (match done {
            Ok(()) => run_state_view(next),
            Err(e) => RunState::Finished(Err(e@)),
        }),
{
    match done {
        Ok(()) => next,
        Err(e) => RunState::Finished(Err(e)),
    }
}

/// Where the service goes on when an action that has to succeed once the worker is there came to
/// `done`.
fn must_with_worker(done: Result<(), String>, next: RunState<String>) -> (state: RunState<String>)
    ensures
        run_state_view(state) == (match done {
            Ok(()) => run_state_view(next),
            Err(e) => RunState::AbortingWorker { error: e@ },
        }),
{
    match done {
        Ok(()) => next,
        Err(error) => RunState::AbortingWorker { error },
    }
}

/// Where the service goes on at its end.
fn cleaned_up(disable_pidfile: bool, result: Result<(), String>) -> (state: RunState<String>)
    ensures
        run_state_view(state) == (if disable_pidfile {
            RunState::Finished(views::done_view(result))
        } else {
            RunState::RemovingPid { result: views::done_view(result) }
        }),
{
    if disable_pidfile {
        RunState::Finished(result)
    } else {
        RunState::RemovingPid { result }
    }
}

/// Begins to run the service.
pub fn run_resident_service(options: RunOptions<Vec<u8>>) -> (run: ServiceRun<String, Vec<u8>>)
    ensures
        run@ == ServiceRun::started(options@),
{
    let state: RunState<String> = if options.disable_sudo {
        RunState::CheckingUser
    } else {
        RunState::BlockingSignals
    };
    ServiceRun { options, state }
}

impl ServiceRun<String, Vec<u8>> {
    /// What the service asks for.
    pub fn action(&self) -> (action: RunAction<String, Vec<u8>>)
        ensures
            action@ == self@.asks(),
    {
        match &self.state {
            RunState::CheckingUser => RunAction::QueryUser,
            RunState::BlockingSignals => RunAction::BlockSignals,
            RunState::LoadingConfig => RunAction::LoadConfig(copy_bytes(&self.options.config)),
            RunState::InstallingEventLog { disable_waiting } => RunAction::InstallEventLog,
            RunState::WaitingForNetwork => RunAction::WaitForNetwork,
            RunState::StartingRuntime => RunAction::StartRuntime {
                asset_dir: resident_config_asset_dir(self.options.config.as_slice()),
            },
            RunState::SpawningWorker => RunAction::SpawnWorker,
            RunState::WritingPid => RunAction::WritePidFile {
                path: copy_bytes(&self.options.pid_file),
                content: decimal_text(self.options.pid as u64),
                mode: CONTROL_FILE_MODE,
            },
            RunState::WritingProgress => RunAction::WriteProgress {
                path: copy_bytes(&self.options.progress_file),
                code: self.options.codes.done,
                suffix: String::new(),
            },
            RunState::WritingReadyRecord => RunAction::WriteReadyRecord {
                path: match &self.options.ready_record_file {
                    Some(path) => copy_bytes(path),
                    None => Vec::new(),
                },
                content: "READY=1\n".to_owned(),
                mode: CONTROL_FILE_MODE,
            },
            RunState::LoggingReady => RunAction::Log("service ready".to_owned()),
            RunState::AnnouncingReady => RunAction::Notify(Notice::Ready),
            RunState::AbortingWorker { error } => RunAction::ShutdownWorker,
            RunState::AwaitingSignal => RunAction::AwaitSignal,
            RunState::RequestingReload => RunAction::RequestReload,
            RunState::Suspending => RunAction::HandleSuspend,
            RunState::AnnouncingStop => RunAction::Notify(Notice::Stopping),
            RunState::LoggingStop => RunAction::Log("service stopping".to_owned()),
            RunState::StoppingWorker => RunAction::ShutdownWorker,
            RunState::RemovingPid { result } => RunAction::RemovePidFile(
                copy_bytes(&self.options.pid_file),
            ),
            RunState::Finished(r) => RunAction::Return(copy_done(r)),
        }
    }

    /// Tells the service what came of its action.
    pub fn tell(self, event: RunEvent<String>) -> (run: Self)
        ensures
            run@ == self@.after(event@),
    {
        let options = self.options;
        let state: RunState<String> = match (self.state, event) {
            (RunState::CheckingUser, RunEvent::User(id)) => {
                if id == 0 {
                    RunState::BlockingSignals
                } else {
                    RunState::Finished(
                        Err("auto-sudo is disabled and current user is not root".to_owned()),
                    )
                }
            },
            (RunState::BlockingSignals, RunEvent::Done(done)) => must(
                done,
                RunState::LoadingConfig,
            ),
            (RunState::LoadingConfig, RunEvent::Loaded(loaded)) => match loaded {
                Ok(disable_waiting) => RunState::InstallingEventLog { disable_waiting },
                Err(e) => RunState::Finished(
                    Err(join2("resident run config validation failed: ", e.as_str())),
                ),
            },
            (RunState::InstallingEventLog { disable_waiting }, RunEvent::Done(_)) => {
                if disable_waiting {
                    RunState::StartingRuntime
                } else {
                    RunState::WaitingForNetwork
                }
            },
            (RunState::WaitingForNetwork, RunEvent::Done(done)) => match done {
                Ok(()) => RunState::StartingRuntime,
                Err(e) => RunState::Finished(
                    Err(join2("waiting for network before subscriptions failed: ", e.as_str())),
                ),
            },
            (RunState::StartingRuntime, RunEvent::Done(done)) => must(
                done,
                RunState::SpawningWorker,
            ),
            (RunState::SpawningWorker, RunEvent::Done(done)) => {
                if options.disable_pidfile {
                    must(done, RunState::WritingProgress)
                } else {
                    must(done, RunState::WritingPid)
                }
            },
            (RunState::WritingPid, RunEvent::Done(done)) => must_with_worker(
                done,
                RunState::WritingProgress,
            ),
            (RunState::WritingProgress, RunEvent::Done(done)) => {
                if options.ready_record_file.is_some() {
                    must_with_worker(done, RunState::WritingReadyRecord)
                } else {
                    must_with_worker(done, RunState::LoggingReady)
                }
            },
            (RunState::WritingReadyRecord, RunEvent::Done(done)) => must_with_worker(
                done,
                RunState::LoggingReady,
            ),
            (RunState::LoggingReady, RunEvent::Done(done)) => must_with_worker(
                done,
                RunState::AnnouncingReady,
            ),
            (RunState::AnnouncingReady, RunEvent::Done(done)) => must_with_worker(
                done,
                RunState::AwaitingSignal,
            ),
            (RunState::AbortingWorker { error }, RunEvent::Done(_)) => cleaned_up(
                options.disable_pidfile,
                Err(error),
            ),
            (RunState::AwaitingSignal, RunEvent::Signal(signal)) => match signal {
                Err(e) => RunState::Finished(Err(e)),
                Ok(number) => match service_signal(options.signals, number) {
                    ServiceSignal::Reload => RunState::RequestingReload,
                    ServiceSignal::Suspend => RunState::Suspending,
                    ServiceSignal::Stop => RunState::AnnouncingStop,
                    ServiceSignal::Ignore => RunState::AwaitingSignal,
                },
            },
            (RunState::RequestingReload, RunEvent::Done(done)) => must(
                done,
                RunState::AwaitingSignal,
            ),
            (RunState::Suspending, RunEvent::Done(done)) => must(done, RunState::AwaitingSignal),
            (RunState::AnnouncingStop, RunEvent::Done(_)) => RunState::LoggingStop,
            (RunState::LoggingStop, RunEvent::Done(_)) => RunState::StoppingWorker,
            (RunState::StoppingWorker, RunEvent::Done(done)) => cleaned_up(
                options.disable_pidfile,
                done,
            ),
            (RunState::RemovingPid { result }, RunEvent::Done(_)) => RunState::Finished(result),
            (other, _) => other,
        };
        ServiceRun { options, state }
    }
}

impl ServiceRun<Seq<char>, Seq<u8>> {
    /// The runtime has been started.
    pub open spec fn runtime_started(self, events: Seq<RunEvent<Seq<char>>>) -> bool {
        self.did(
            events,
            RunAction::StartRuntime { asset_dir: paths::asset_dir(self.options.config) },
            RunEvent::Done(Ok(())),
        )
    }

    /// The worker has been started.
    pub open spec fn worker_started(self, events: Seq<RunEvent<Seq<char>>>) -> bool {
        self.did(events, RunAction::SpawnWorker, RunEvent::Done(Ok(())))
    }

    /// The file that names the process has been written.
    pub open spec fn pid_written(self, events: Seq<RunEvent<Seq<char>>>) -> bool {
        self.did(
            events,
            RunAction::WritePidFile {
                path: self.options.pid_file,
                content: decimal::decimal(self.options.pid as nat),
                mode: CONTROL_FILE_MODE,
            },
            RunEvent::Done(Ok(())),
        )
    }

    /// The progress file says that no reload goes on.
    pub open spec fn progress_written(self, events: Seq<RunEvent<Seq<char>>>) -> bool {
        self.did(
            events,
            RunAction::WriteProgress {
                path: self.options.progress_file,
                code: self.options.codes.done,
                suffix: seq![],
            },
            RunEvent::Done(Ok(())),
        )
    }

    /// Where there is to be a file that says that the service is up, it has been written.
    pub open spec fn ready_written(self, events: Seq<RunEvent<Seq<char>>>) -> bool {
        self.options.ready_record_file matches Some(path) ==> self.did(
            events,
            RunAction::WriteReadyRecord { path, content: "READY=1\n"@, mode: 0o644 },
            RunEvent::Done(Ok(())),
        )
    }

    /// The runtime and the worker have been started.
    pub open spec fn working(self, events: Seq<RunEvent<Seq<char>>>) -> bool {
        &&& self.runtime_started(events)
        &&& self.worker_started(events)
    }

    /// The runtime and the worker have been started, and the files that tell of the service have
    /// been written.
    pub open spec fn up(self, events: Seq<RunEvent<Seq<char>>>) -> bool {
        &&& self.working(events)
        &&& self.options.disable_pidfile || self.pid_written(events)
        &&& self.progress_written(events)
        &&& self.ready_written(events)
    }

    /// The worker has been asked to end.
    pub open spec fn worker_stopped(self, events: Seq<RunEvent<Seq<char>>>) -> bool {
        exists|done: Result<(), Seq<char>>| #[trigger]
            self.did(events, RunAction::ShutdownWorker, RunEvent::Done(done))
    }

    /// The file that names the process has been asked to be removed.
    pub open spec fn pid_removed(self, events: Seq<RunEvent<Seq<char>>>) -> bool {
        exists|done: Result<(), Seq<char>>| #[trigger]
            self.did(
                events,
                RunAction::RemovePidFile(self.options.pid_file),
                RunEvent::Done(done),
            )
    }

    /// The service broke off with `error` while it was up: a signal could not be waited for, or
    /// the worker could not be asked to reload, or a request to suspend could not be answered.
    pub open spec fn broke_off(self, events: Seq<RunEvent<Seq<char>>>, error: Seq<char>) -> bool {
        ||| self.did(events, RunAction::AwaitSignal, RunEvent::Signal(Err(error)))
        ||| self.did(events, RunAction::RequestReload, RunEvent::Done(Err(error)))
        ||| self.did(events, RunAction::HandleSuspend, RunEvent::Done(Err(error)))
    }

    /// What has happened when a service stands at `state`.
    pub open spec fn came_by(
        self,
        events: Seq<RunEvent<Seq<char>>>,
        state: RunState<Seq<char>>,
    ) -> bool {
        match state {
            RunState::CheckingUser | RunState::BlockingSignals | RunState::LoadingConfig
            | RunState::InstallingEventLog { .. } | RunState::WaitingForNetwork
            | RunState::StartingRuntime => !self.worker_started(events),
            RunState::SpawningWorker => self.runtime_started(events) && !self.worker_started(
                events,
            ),
            RunState::WritingPid => self.working(events) && !self.options.disable_pidfile,
            RunState::WritingProgress => self.working(events) && (self.options.disable_pidfile
                || self.pid_written(events)),
            RunState::WritingReadyRecord => self.working(events) && (self.options.disable_pidfile
                || self.pid_written(events)) && self.progress_written(events)
                && self.options.ready_record_file is Some,
            RunState::LoggingReady | RunState::AnnouncingReady
            | RunState::AwaitingSignal | RunState::RequestingReload | RunState::Suspending
            | RunState::AnnouncingStop | RunState::LoggingStop | RunState::StoppingWorker => self.up(
                events,
            ),
            RunState::AbortingWorker { error } => self.working(events),
            RunState::RemovingPid { result } => self.working(events) && self.worker_stopped(events)
                && !self.options.disable_pidfile,
            RunState::Finished(r) => {
                ||| !self.worker_started(events)
                ||| self.worker_stopped(events) && (self.options.disable_pidfile
                    || self.pid_removed(events))
                ||| r matches Err(e) && self.broke_off(events, e)
            },
        }
    }
}

/// What a service did before an event it has done after it too.
proof fn lemma_did_stays(
    run: ServiceRun<Seq<char>, Seq<u8>>,
    events: Seq<RunEvent<Seq<char>>>,
)
    requires
        events.len() > 0,
    ensures
        forall|action: RunAction<Seq<char>, Seq<u8>>, event: RunEvent<Seq<char>>|
            run.did(events.drop_last(), action, event) ==> #[trigger] run.did(
                events,
                action,
                event,
            ),
        forall|action: RunAction<Seq<char>, Seq<u8>>, event: RunEvent<Seq<char>>|
            #[trigger] run.did(events, action, event) ==> run.did(
                events.drop_last(),
                action,
                event,
            ) || action == run.after_all(events.drop_last()).asks() && event == events.last(),
        run.did(events, run.after_all(events.drop_last()).asks(), events.last()),
{
    let rest = events.drop_last();
    let n = events.len() - 1;
    assert(events.take(n) =~= rest);
    assert forall|action: RunAction<Seq<char>, Seq<u8>>, event: RunEvent<Seq<char>>|
        run.did(rest, action, event) implies #[trigger] run.did(events, action, event) by {
        let i = choose|i: int| run.told(rest, i, action, event);
        assert(rest.take(i) =~= events.take(i));
        assert(run.told(events, i, action, event));
    }
    assert forall|action: RunAction<Seq<char>, Seq<u8>>, event: RunEvent<Seq<char>>|
        #[trigger] run.did(events, action, event) implies run.did(rest, action, event) || action
        == run.after_all(rest).asks() && event == events.last() by {
        let i = choose|i: int| run.told(events, i, action, event);
        if i < n {
            assert(rest.take(i) =~= events.take(i));
            assert(run.told(rest, i, action, event));
        }
    }
    assert(run.told(events, n, run.after_all(rest).asks(), events.last()));
}

/// What has happened stays so, and the worker is started only by being started.
proof fn lemma_facts_stay(
    run: ServiceRun<Seq<char>, Seq<u8>>,
    events: Seq<RunEvent<Seq<char>>>,
)
    requires
        events.len() > 0,
    ensures
        run.runtime_started(events.drop_last()) ==> run.runtime_started(events),
        run.worker_started(events.drop_last()) ==> run.worker_started(events),
        run.pid_written(events.drop_last()) ==> run.pid_written(events),
        run.progress_written(events.drop_last()) ==> run.progress_written(events),
        run.ready_written(events.drop_last()) ==> run.ready_written(events),
        run.worker_stopped(events.drop_last()) ==> run.worker_stopped(events),
        run.pid_removed(events.drop_last()) ==> run.pid_removed(events),
        forall|e: Seq<char>|
            run.broke_off(events.drop_last(), e) ==> #[trigger] run.broke_off(events, e),
        run.worker_started(events) ==> run.worker_started(events.drop_last())
            || run.after_all(events.drop_last()).asks() is SpawnWorker && events.last()
            == RunEvent::<Seq<char>>::Done(Ok(())),
        run.did(events, run.after_all(events.drop_last()).asks(), events.last()),
{
    let rest = events.drop_last();
    lemma_did_stays(run, events);
    if run.worker_stopped(rest) {
        let done = choose|done: Result<(), Seq<char>>| #[trigger]
            run.did(rest, RunAction::ShutdownWorker, RunEvent::Done(done));
        assert(run.did(events, RunAction::ShutdownWorker, RunEvent::Done(done)));
    }
    if run.pid_removed(rest) {
        let done = choose|done: Result<(), Seq<char>>| #[trigger]
            run.did(
                rest,
                RunAction::RemovePidFile(run.options.pid_file),
                RunEvent::Done(done),
            );
        assert(run.did(
            events,
            RunAction::RemovePidFile(run.options.pid_file),
            RunEvent::Done(done),
        ));
    }
}

/// What one event adds to what has happened.
proof fn lemma_fact_added(
    run: ServiceRun<Seq<char>, Seq<u8>>,
    events: Seq<RunEvent<Seq<char>>>,
)
    requires
        events.len() > 0,
        run.after_all(events.drop_last()).options == run.options,
        run.did(events, run.after_all(events.drop_last()).asks(), events.last()),
    ensures
        ({
            let state = run.after_all(events.drop_last()).state;
            match events.last() {
                RunEvent::Done(Ok(())) => {
                    &&& state is StartingRuntime ==> run.runtime_started(events)
                    &&& state is SpawningWorker ==> run.worker_started(events)
                    &&& state is WritingPid ==> run.pid_written(events)
                    &&& state is WritingProgress ==> run.progress_written(events)
                    &&& state is WritingReadyRecord ==> run.ready_written(events)
                    &&& state is AbortingWorker || state is StoppingWorker ==> run.worker_stopped(
                        events,
                    )
                    &&& state is RemovingPid ==> run.pid_removed(events)
                },
                RunEvent::Done(Err(e)) => {
                    &&& state is AbortingWorker || state is StoppingWorker ==> run.worker_stopped(
                        events,
                    )
                    &&& state is RemovingPid ==> run.pid_removed(events)
                    &&& state is RequestingReload || state is Suspending ==> run.broke_off(
                        events,
                        e,
                    )
                },
                RunEvent::Signal(Err(e)) => state is AwaitingSignal ==> run.broke_off(events, e),
                _ => true,
            }
        }),
{
    if let RunEvent::Done(Ok(unit)) = events.last() {
        assert(unit == ());
    }
}

/// However a service came to where it stands, what has to have happened has.
proof fn lemma_history(options: RunOptions<Seq<u8>>, events: Seq<RunEvent<Seq<char>>>)
    ensures
        ({
            let run = ServiceRun::started(options);
            &&& run.after_all(events).options == options
            &&& run.came_by(events, run.after_all(events).state)
        }),
    decreases events.len(),
{
    let run = ServiceRun::started(options);
    if events.len() > 0 {
        let rest = events.drop_last();
        lemma_history(options, rest);
        lemma_facts_stay(run, events);
        lemma_fact_added(run, events);
        assert(run.after_all(events) == run.after_all(rest).after(events.last()));
    } else {
        assert(!run.worker_started(events));
    }
}

/// The service manager is told that the service is up only once the runtime and the worker have
/// been started, the progress file says that no reload goes on, and the file that names the process
/// and the one that says that the service is up have been written, unless there is to be none.
pub proof fn law_ready_means_up(options: RunOptions<Seq<u8>>, events: Seq<RunEvent<Seq<char>>>)
    requires
        ({
            let run = ServiceRun::started(options).after_all(events);
            run.asks() == RunAction::<Seq<char>, Seq<u8>>::Notify(Notice::Ready) || run.asks()
                is AwaitSignal
        }),
    ensures
        ServiceRun::started(options).up(events),
{
    lemma_history(options, events);
}

/// A service that has started its worker ends only with the worker asked to end and the file that
/// names the process asked to be removed, unless it broke off while it was up.
pub proof fn law_nothing_is_left_behind(
    options: RunOptions<Seq<u8>>,
    events: Seq<RunEvent<Seq<char>>>,
    result: Result<(), Seq<char>>,
)
    requires
        ServiceRun::started(options).after_all(events).asks() == RunAction::<
            Seq<char>,
            Seq<u8>,
        >::Return(result),
        ServiceRun::started(options).worker_started(events),
    ensures
        ({
            let run = ServiceRun::started(options);
            ||| run.worker_stopped(events) && (options.disable_pidfile || run.pid_removed(events))
            ||| result matches Err(e) && run.broke_off(events, e)
        }),
{
    lemma_history(options, events);
}

/// A service without a file that names its process neither writes nor removes one.
pub proof fn law_no_pid_file_where_there_is_to_be_none(
    options: RunOptions<Seq<u8>>,
    events: Seq<RunEvent<Seq<char>>>,
)
    requires
        options.disable_pidfile,
    ensures
        !(ServiceRun::started(options).after_all(events).asks() is WritePidFile),
        !(ServiceRun::started(options).after_all(events).asks() is RemovePidFile),
{
    lemma_history(options, events);
}

/// A signal that asks for nothing leaves the service as it is.
pub proof fn law_other_signals_change_nothing(run: ServiceRun<Seq<char>, Seq<u8>>, number: i32)
    requires
        signals::signal_meaning(run.options.signals, number) == ServiceSignal::Ignore,
    ensures
        run.after(RunEvent::Signal(Ok(number))) == run,
{
}

/// Where the options name a file that says that the service is up, the service manager is told so,
/// and a signal is waited for, only once that file has been asked to be written and was, whatever
/// else the options say.
pub proof fn law_ready_means_recorded(
    options: RunOptions<Seq<u8>>,
    events: Seq<RunEvent<Seq<char>>>,
    path: Seq<u8>,
)
    requires
        options.ready_record_file == Some(path),
        ({
            let run = ServiceRun::started(options).after_all(events);
            run.asks() == RunAction::<Seq<char>, Seq<u8>>::Notify(Notice::Ready) || run.asks()
                is AwaitSignal
        }),
    ensures
        exists|i: int|
            {
                &&& 0 <= i < events.len()
                &&& ServiceRun::started(options).after_all(#[trigger] events.take(i)).asks()
                    == RunAction::WriteReadyRecord { path, content: "READY=1\n"@, mode: 0o644 }
                &&& events[i] == RunEvent::<Seq<char>>::Done(Ok(()))
            },
{
    lemma_history(options, events);
    let run = ServiceRun::started(options);
    let action = RunAction::WriteReadyRecord { path, content: "READY=1\n"@, mode: 0o644 };
    let i = choose|i: int| run.told(events, i, action, RunEvent::Done(Ok(())));
    assert(run.after_all(events.take(i)).asks() == action);
}

/// Where the options name no such file, none is ever asked to be written.
pub proof fn law_no_ready_record_where_there_is_to_be_none(
    options: RunOptions<Seq<u8>>,
    events: Seq<RunEvent<Seq<char>>>,
)
    requires
        options.ready_record_file is None,
    ensures
        !(ServiceRun::started(options).after_all(events).asks() is WriteReadyRecord),
{
    lemma_history(options, events);
}

/// `run` asks for `action`, and ends with the error where that fails.
pub open spec fn must_do(
    run: ServiceRun<Seq<char>, Seq<u8>>,
    action: RunAction<Seq<char>, Seq<u8>>,
) -> bool {
    &&& run.asks() == action
    &&& forall|e: Seq<char>|
        (#[trigger] run.after(RunEvent::Done(Err(e)))).asks() == RunAction::<
            Seq<char>,
            Seq<u8>,
        >::Return(Err(e))
}

/// From here on a service removes the file that names its process, unless it wrote none, and ends
/// with `result`, whatever comes of that.
pub open spec fn goes_away(
    run: ServiceRun<Seq<char>, Seq<u8>>,
    options: RunOptions<Seq<u8>>,
    result: Result<(), Seq<char>>,
) -> bool {
    let over = RunAction::<Seq<char>, Seq<u8>>::Return(result);
    if options.disable_pidfile {
        run.asks() == over
    } else {
        &&& run.asks() == RunAction::<Seq<char>, _>::RemovePidFile(options.pid_file)
        &&& forall|done: Result<(), Seq<char>>|
            (#[trigger] run.after(RunEvent::Done(done))).asks() == over
    }
}

/// `run` asks for `action`, and where that fails has the worker end, goes away, and ends with the
/// error, whatever comes of the worker.
pub open spec fn must_do_with_worker(
    run: ServiceRun<Seq<char>, Seq<u8>>,
    options: RunOptions<Seq<u8>>,
    action: RunAction<Seq<char>, Seq<u8>>,
) -> bool {
    &&& run.asks() == action
    &&& forall|e: Seq<char>, stopped: Result<(), Seq<char>>|
        {
            &&& run.after(RunEvent::Done(Err(e))).asks() is ShutdownWorker
            &&& goes_away(
                #[trigger] run.after(RunEvent::Done(Err(e))).after(RunEvent::Done(stopped)),
                options,
                Err(e),
            )
        }
}

/// A service that has been let in: as the superuser, where only that one may run it.
pub open spec fn let_in(options: RunOptions<Seq<u8>>) -> ServiceRun<Seq<char>, Seq<u8>> {
    let first = ServiceRun::started(options);
    if options.disable_sudo {
        first.after(RunEvent::User(0))
    } else {
        first
    }
}

/// Such a service whose configuration is loaded, where setting up the log of events came to
/// `installed`, and that has a network unless its configuration asks not to wait for that.
pub open spec fn prepared(
    options: RunOptions<Seq<u8>>,
    disable_waiting: bool,
    installed: Result<(), Seq<char>>,
) -> ServiceRun<Seq<char>, Seq<u8>> {
    let loaded = let_in(options).after(RunEvent::Done(Ok(()))).after(
        RunEvent::Loaded(Ok(disable_waiting)),
    ).after(RunEvent::Done(installed));
    if disable_waiting {
        loaded
    } else {
        loaded.after(RunEvent::Done(Ok(())))
    }
}

/// Such a service whose runtime and worker have been started, and that has written the file that
/// names its process, unless it is to write none.
pub open spec fn named(
    options: RunOptions<Seq<u8>>,
    disable_waiting: bool,
    installed: Result<(), Seq<char>>,
) -> ServiceRun<Seq<char>, Seq<u8>> {
    let spawned = prepared(options, disable_waiting, installed).after(
        RunEvent::Done(Ok(())),
    ).after(RunEvent::Done(Ok(())));
    if options.disable_pidfile {
        spawned
    } else {
        spawned.after(RunEvent::Done(Ok(())))
    }
}

/// Such a service that has written the progress file and, where there is to be one, the file that
/// says that the service is up.
pub open spec fn recorded(
    options: RunOptions<Seq<u8>>,
    disable_waiting: bool,
    installed: Result<(), Seq<char>>,
) -> ServiceRun<Seq<char>, Seq<u8>> {
    let marked = named(options, disable_waiting, installed).after(RunEvent::Done(Ok(())));
    if options.ready_record_file is Some {
        marked.after(RunEvent::Done(Ok(())))
    } else {
        marked
    }
}

/// Such a service that has told the log and the service manager that it is up.
pub open spec fn running(
    options: RunOptions<Seq<u8>>,
    disable_waiting: bool,
    installed: Result<(), Seq<char>>,
) -> ServiceRun<Seq<char>, Seq<u8>> {
    recorded(options, disable_waiting, installed).after(RunEvent::Done(Ok(()))).after(
        RunEvent::Done(Ok(())),
    )
}

/// A service that only the superuser may run asks who runs it, and turns anybody else away; any
/// other service does not ask. Then the signals are blocked and the configuration is loaded.
pub proof fn law_service_begins(options: RunOptions<Seq<u8>>, user: u32, e: Seq<char>)
    ensures
        ({
            let first = ServiceRun::started(options);
            let loading = let_in(options).after(RunEvent::Done(Ok(())));
            &&& options.disable_sudo ==> first.asks() is QueryUser
            &&& options.disable_sudo && user != 0 ==> first.after(RunEvent::User(user)).asks()
                == RunAction::<Seq<char>, Seq<u8>>::Return(
                Err("auto-sudo is disabled and current user is not root"@),
            )
            &&& must_do(let_in(options), RunAction::BlockSignals)
            &&& loading.asks() == RunAction::<Seq<char>, _>::LoadConfig(options.config)
            &&& loading.after(RunEvent::Loaded(Err(e))).asks() == RunAction::<
                Seq<char>,
                Seq<u8>,
            >::Return(Err("resident run config validation failed: "@ + e))
        }),
{
}

/// With its configuration loaded, a service sets up the log of events, whatever comes of that,
/// waits for the network unless the configuration asks not to, and starts the runtime and the
/// worker. The first of these that fails, other than the log of events, ends it.
pub proof fn law_service_starts_to_work(
    options: RunOptions<Seq<u8>>,
    disable_waiting: bool,
    installed: Result<(), Seq<char>>,
    e: Seq<char>,
)
    ensures
        ({
            let loaded = let_in(options).after(RunEvent::Done(Ok(()))).after(
                RunEvent::Loaded(Ok(disable_waiting)),
            );
            let waiting = loaded.after(RunEvent::Done(installed));
            let starting = prepared(options, disable_waiting, installed);
            let spawning = starting.after(RunEvent::Done(Ok(())));
            &&& loaded.asks() is InstallEventLog
            &&& !disable_waiting ==> waiting.asks() is WaitForNetwork
            &&& !disable_waiting ==> waiting.after(RunEvent::Done(Err(e))).asks() == RunAction::<
                Seq<char>,
                Seq<u8>,
            >::Return(Err("waiting for network before subscriptions failed: "@ + e))
            &&& must_do(
                starting,
                RunAction::StartRuntime { asset_dir: paths::asset_dir(options.config) },
            )
            &&& must_do(spawning, RunAction::SpawnWorker)
        }),
{
}

/// With its worker started, a service writes the file that names its process, unless it is to write
/// none, the progress file, and the file that says that it is up, where it is to write one; it
/// tells the log and the service manager; and then it waits for signals. Where one of these fails,
/// the worker is asked to end, and the file that names the process to be removed, before the
/// service ends with that error.
pub proof fn law_service_comes_up(
    options: RunOptions<Seq<u8>>,
    disable_waiting: bool,
    installed: Result<(), Seq<char>>,
)
    ensures
        ({
            let spawned = prepared(options, disable_waiting, installed).after(
                RunEvent::Done(Ok(())),
            ).after(RunEvent::Done(Ok(())));
            let marking = named(options, disable_waiting, installed);
            let marked = marking.after(RunEvent::Done(Ok(())));
            let logging = recorded(options, disable_waiting, installed);
            let announcing = logging.after(RunEvent::Done(Ok(())));
            &&& !options.disable_pidfile ==> must_do_with_worker(
                spawned,
                options,
                RunAction::WritePidFile {
                    path: options.pid_file,
                    content: decimal::decimal(options.pid as nat),
                    mode: 0o644,
                },
            )
            &&& must_do_with_worker(
                marking,
                options,
                RunAction::WriteProgress {
                    path: options.progress_file,
                    code: options.codes.done,
                    suffix: seq![],
                },
            )
            &&& options.ready_record_file is Some ==> must_do_with_worker(
                marked,
                options,
                RunAction::WriteReadyRecord {
                    path: options.ready_record_file->0,
                    content: "READY=1\n"@,
                    mode: 0o644,
                },
            )
            &&& must_do_with_worker(logging, options, RunAction::Log("service ready"@))
            &&& must_do_with_worker(announcing, options, RunAction::Notify(Notice::Ready))
            &&& running(options, disable_waiting, installed).asks() is AwaitSignal
            &&& running(options, disable_waiting, installed).options == options
        }),
{
}

/// A service that waits for a signal does what the signal asks for: it has a reload requested, or a
/// suspension answered, and then waits on just as before; a signal that asks for nothing changes
/// nothing; and where a signal cannot be waited for, or either of these fails, the service ends
/// with that error.
pub proof fn law_service_obeys(run: ServiceRun<Seq<char>, Seq<u8>>, number: i32, e: Seq<char>)
    requires
        run.asks() is AwaitSignal,
    ensures
        ({
            let next = run.after(RunEvent::Signal(Ok(number)));
            let meaning = signals::signal_meaning(run.options.signals, number);
            &&& meaning == ServiceSignal::Reload ==> must_do(next, RunAction::RequestReload)
                && next.after(RunEvent::Done(Ok(()))) == run
            &&& meaning == ServiceSignal::Suspend ==> must_do(next, RunAction::HandleSuspend)
                && next.after(RunEvent::Done(Ok(()))) == run
            &&& meaning == ServiceSignal::Ignore ==> next == run
            &&& meaning == ServiceSignal::Stop ==> next.asks() == RunAction::<
                Seq<char>,
                Seq<u8>,
            >::Notify(Notice::Stopping)
            &&& run.after(RunEvent::Signal(Err(e))).asks() == RunAction::<
                Seq<char>,
                Seq<u8>,
            >::Return(Err(e))
        }),
{
}

/// A service that is asked to end tells the service manager and the log, whatever comes of that,
/// has the worker end and the file that names its process removed, and ends with what came of the
/// worker.
pub proof fn law_service_goes_down(
    run: ServiceRun<Seq<char>, Seq<u8>>,
    number: i32,
    told: Result<(), Seq<char>>,
    logged: Result<(), Seq<char>>,
    stopped: Result<(), Seq<char>>,
)
    requires
        run.asks() is AwaitSignal,
        signals::signal_meaning(run.options.signals, number) == ServiceSignal::Stop,
    ensures
        ({
            let first = run.after(RunEvent::Signal(Ok(number)));
            let second = first.after(RunEvent::Done(told));
            let third = second.after(RunEvent::Done(logged));
            &&& first.asks() == RunAction::<Seq<char>, Seq<u8>>::Notify(Notice::Stopping)
            &&& second.asks() == RunAction::<_, Seq<u8>>::Log("service stopping"@)
            &&& third.asks() is ShutdownWorker
            &&& goes_away(third.after(RunEvent::Done(stopped)), run.options, stopped)
        }),
{
}

/// What does not answer the question of a service changes nothing, and neither does anything that
/// it is told once it is over. Its options never change.
pub proof fn law_service_hears_only_answers(
    run: ServiceRun<Seq<char>, Seq<u8>>,
    event: RunEvent<Seq<char>>,
)
    ensures
        run.after(event).options == run.options,
        !(match run.asks() {
            RunAction::QueryUser => event is User,
            RunAction::LoadConfig(_) => event is Loaded,
            RunAction::AwaitSignal => event is Signal,
            RunAction::Return(_) => false,
            _ => event is Done,
        }) ==> run.after(event) == run,
{
}

/// What an action is shown to ask for is what it asks for, with everything that it holds.
pub proof fn law_action_is_shown_as_it_is(action: RunAction<String, Vec<u8>>)
    ensures
        match action {
            RunAction::QueryUser => action@ == RunAction::<Seq<char>, Seq<u8>>::QueryUser,
            RunAction::BlockSignals => action@ == RunAction::<Seq<char>, Seq<u8>>::BlockSignals,
            RunAction::LoadConfig(path) => action@
                == RunAction::<Seq<char>, Seq<u8>>::LoadConfig(path@),
            RunAction::InstallEventLog => action@
                == RunAction::<Seq<char>, Seq<u8>>::InstallEventLog,
            RunAction::WaitForNetwork => action@ == RunAction::<Seq<char>, Seq<u8>>::WaitForNetwork,
            RunAction::StartRuntime { asset_dir } => action@
                == (RunAction::<Seq<char>, Seq<u8>>::StartRuntime { asset_dir: asset_dir@ }),
            RunAction::SpawnWorker => action@ == RunAction::<Seq<char>, Seq<u8>>::SpawnWorker,
            RunAction::WritePidFile { path, content, mode } => action@
                == (RunAction::<Seq<char>, Seq<u8>>::WritePidFile {
                    path: path@,
                    content: content@,
                    mode,
                }),
            RunAction::WriteProgress { path, code, suffix } => action@
                == (RunAction::<Seq<char>, Seq<u8>>::WriteProgress {
                    path: path@,
                    code,
                    suffix: suffix@,
                }),
            RunAction::WriteReadyRecord { path, content, mode } => action@
                == (RunAction::<Seq<char>, Seq<u8>>::WriteReadyRecord {
                    path: path@,
                    content: content@,
                    mode,
                }),
            RunAction::Log(message) => action@ == RunAction::<Seq<char>, Seq<u8>>::Log(message@),
            RunAction::Notify(notice) => action@ == RunAction::<Seq<char>, Seq<u8>>::Notify(notice),
            RunAction::AwaitSignal => action@ == RunAction::<Seq<char>, Seq<u8>>::AwaitSignal,
            RunAction::RequestReload => action@ == RunAction::<Seq<char>, Seq<u8>>::RequestReload,
            RunAction::HandleSuspend => action@ == RunAction::<Seq<char>, Seq<u8>>::HandleSuspend,
            RunAction::ShutdownWorker => action@ == RunAction::<Seq<char>, Seq<u8>>::ShutdownWorker,
            RunAction::RemovePidFile(path) => action@
                == RunAction::<Seq<char>, Seq<u8>>::RemovePidFile(path@),
            RunAction::Return(r) => action@
                == RunAction::<Seq<char>, Seq<u8>>::Return(views::done_view(r)),
        },
{
}

/// What an event is shown to tell is what it tells, with everything that it holds.
pub proof fn law_event_is_shown_as_it_is(event: RunEvent<String>)
    ensures
        match event {
            RunEvent::User(id) => event@ == RunEvent::<Seq<char>>::User(id),
            RunEvent::Done(r) => event@ == RunEvent::<Seq<char>>::Done(views::done_view(r)),
            RunEvent::Loaded(r) => event@ == RunEvent::<Seq<char>>::Loaded(views::number_view(r)),
            RunEvent::Signal(r) => event@ == RunEvent::<Seq<char>>::Signal(views::number_view(r)),
        },
{
}

/// The options of a service are shown as they are.
pub proof fn law_options_are_shown_as_they_are(options: RunOptions<Vec<u8>>)
    ensures
        options@.codes == options.codes,
        options@.signals == options.signals,
        options@.pid == options.pid,
        options@.disable_sudo == options.disable_sudo,
        options@.disable_pidfile == options.disable_pidfile,
        options@.config == options.config@,
        options@.progress_file == options.progress_file@,
        options@.pid_file == options.pid_file@,
        options.ready_record_file matches Some(path) ==> options@.ready_record_file == Some(path@),
        options.ready_record_file is None ==> options@.ready_record_file is None,
{
}

} // verus!
