//! The worker that reloads in the background: what it and its owner share.

use crate::views::{self, join2};
use vstd::prelude::*;

verus! {

/// What the worker can be asked.
#[derive(Clone, Copy, Debug, PartialEq, Eq, Structural)]
pub enum ResidentWorkerCommand {
    /// Reload once.
    Reload,
    /// End.
    Shutdown,
}

/// Why the worker gets no command.
#[derive(Clone, Copy, Debug, PartialEq, Eq, Structural)]
pub enum NoCommand {
    /// There is none now.
    Empty,
    /// There is none and there will be none.
    Disconnected,
}

/// How the thread of the worker ended.
#[derive(Clone, Copy, Debug, PartialEq, Eq, Structural)]
pub enum WorkerEnd {
    /// There was no thread to wait for.
    NoThread,
    /// It came to its end.
    Joined,
    /// It panicked.
    Panicked,
}

/// What the worker and its owner share: a queue for one command, whether each of them is still
/// there, whether the worker is to end, and why it gave up. Texts are `T`.
#[derive(Debug)]
pub struct ResidentReloadWorker<T> {
    /// The command that waits for the worker.
    pub pending: Option<ResidentWorkerCommand>,
    /// The owner is there.
    pub owned: bool,
    /// The worker takes commands.
    pub receiving: bool,
    /// The worker is to end.
    pub stopping: bool,
    /// Why the worker gave up.
    pub failure: Option<T>,
}

impl View for ResidentReloadWorker<String> {
    type V = ResidentReloadWorker<Seq<char>>;

    open spec fn view(&self) -> ResidentReloadWorker<Seq<char>> {
        ResidentReloadWorker {
            pending: self.pending,
            owned: self.owned,
            receiving: self.receiving,
            stopping: self.stopping,
            failure: views::maybe_view(self.failure),
        }
    }
}

impl ResidentReloadWorker<Seq<char>> {
    /// A worker that has just begun.
    pub open spec fn fresh() -> Self {
        ResidentReloadWorker {
            pending: None,
            owned: true,
            receiving: true,
            stopping: false,
            failure: None,
        }
    }

    /// What holds of a worker at all times: a command waits only for a worker that takes it, the
    /// end is asked for only of one that is to end, and one that gave up is to end.
    pub open spec fn well_formed(self) -> bool {
        &&& self.pending is Some ==> self.receiving
        &&& self.pending == Some(ResidentWorkerCommand::Shutdown) ==> self.stopping
        &&& self.failure is Some ==> self.stopping
    }

    /// The worker after an attempt to hand it `command`: one that waits already stays in its place.
    pub open spec fn handed(self, command: ResidentWorkerCommand) -> Self {
        if self.receiving && self.pending is None {
            ResidentReloadWorker { pending: Some(command), ..self }
        } else {
            self
        }
    }

    /// What a request to reload is answered.
    pub open spec fn request_answer(self) -> Result<(), Seq<char>> {
        if self.receiving {
            Ok(())
        } else {
            match self.failure {
                Some(e) => Err(e),
                None => Err("resident reload worker stopped unexpectedly"@),
            }
        }
    }

    /// The command that the worker gets.
    pub open spec fn command(self) -> Result<ResidentWorkerCommand, NoCommand> {
        match self.pending {
            Some(command) => Ok(command),
            None => Err(
                if self.owned {
                    NoCommand::Empty
                } else {
                    NoCommand::Disconnected
                },
            ),
        }
    }

    /// The worker after it has taken the command that waited.
    pub open spec fn emptied(self) -> Self {
        ResidentReloadWorker { pending: None, ..self }
    }

    /// The worker starts a reload on `command`.
    pub open spec fn reloads_on(self, command: ResidentWorkerCommand) -> bool {
        !self.stopping && command == ResidentWorkerCommand::Reload
    }

    /// The worker after a reload that came to `outcome`.
    pub open spec fn reloaded(self, outcome: Result<(), Seq<char>>) -> Self {
        match outcome {
            Ok(()) => self,
            Err(e) => ResidentReloadWorker { failure: Some(e), stopping: true, ..self },
        }
    }

    /// The worker after its thread has ended.
    pub open spec fn ended(self) -> Self {
        ResidentReloadWorker { pending: None, receiving: false, ..self }
    }

    /// The worker after it has been asked to end.
    pub open spec fn asked_to_end(self) -> Self {
        ResidentReloadWorker { stopping: true, ..self }.handed(ResidentWorkerCommand::Shutdown)
    }

    /// What ending the worker came to.
    pub open spec fn end_answer(self, end: WorkerEnd) -> Result<(), Seq<char>> {
        if end == WorkerEnd::Panicked {
            Err("resident reload worker panicked"@)
        } else {
            match self.failure {
                Some(e) => Err(e),
                None => Ok(()),
            }
        }
    }

    /// The worker after `n` requests to reload.
    pub open spec fn requested(self, n: nat) -> Self
        decreases n,
    {
        if n == 0 {
            self
        } else {
            self.requested((n - 1) as nat).handed(ResidentWorkerCommand::Reload)
        }
    }
}

impl ResidentReloadWorker<String> {
    /// A worker, given what starting its thread came to.
    pub fn spawn(started: Result<(), String>) -> (worker: Result<Self, String>)
        ensures
            match (started, worker) {
                (Ok(()), Ok(w)) => w@ == ResidentReloadWorker::fresh() && w@.well_formed(),
                (Err(e), Err(message)) => message@ == "failed to start resident reload worker: "@
                    + e@,
                _ => false,
            },
    {
        match started {
            Ok(()) => Ok(
                ResidentReloadWorker {
                    pending: None,
                    owned: true,
                    receiving: true,
                    stopping: false,
                    failure: None,
                },
            ),
            Err(e) => Err(join2("failed to start resident reload worker: ", e.as_str())),
        }
    }

    /// Hands the worker `command`, unless one waits already or it takes none.
    fn try_send(&mut self, command: ResidentWorkerCommand)
        ensures
            final(self)@ == old(self)@.handed(command),
    {
        if self.receiving && self.pending.is_none() {
            self.pending = Some(command);
        }
    }

    /// Asks the worker to reload. A request that comes while another waits is met by that one.
    pub fn request_reload(&mut self) -> (answer: Result<(), String>)
        ensures
            final(self)@ == old(self)@.handed(ResidentWorkerCommand::Reload),
            old(self)@.well_formed() ==> final(self)@.well_formed(),
            views::done_view(answer) == old(self)@.request_answer(),
    {
        if self.receiving {
            self.try_send(ResidentWorkerCommand::Reload);
            return Ok(());
        }
        match self.failure_message() {
            Some(e) => Err(e),
            None => Err("resident reload worker stopped unexpectedly".to_owned()),
        }
    }

    /// The command that the worker gets, which no longer waits then.
    pub fn try_recv(&mut self) -> (command: Result<ResidentWorkerCommand, NoCommand>)
        ensures
            final(self)@ == old(self)@.emptied(),
            old(self)@.well_formed() ==> final(self)@.well_formed(),
            command == old(self)@.command(),
    {
        match self.pending.take() {
            Some(command) => Ok(command),
            None => {
                if self.owned {
                    Err(NoCommand::Empty)
                } else {
                    Err(NoCommand::Disconnected)
                }
            },
        }
    }

    /// Whether the worker starts a reload on `command`; else it ends.
    pub fn takes_up(&self, command: ResidentWorkerCommand) -> (reload: bool)
        ensures
            reload == self@.reloads_on(command),
    {
        !self.stopping && command == ResidentWorkerCommand::Reload
    }

    /// Notes what a reload came to, and says whether the worker goes on.
    pub fn finish_reload(&mut self, outcome: Result<(), String>) -> (goes_on: bool)
        ensures
            final(self)@ == old(self)@.reloaded(views::done_view(outcome)),
            old(self)@.well_formed() ==> final(self)@.well_formed(),
            goes_on == outcome is Ok,
    {
        match outcome {
            Ok(()) => true,
            Err(e) => {
                self.failure = Some(e);
                self.stopping = true;
                false
            },
        }
    }

    /// Whether the worker is to end.
    pub fn is_stopping(&self) -> (stopping: bool)
        ensures
            stopping == self@.stopping,
    {
        self.stopping
    }

    /// Notes that the thread of the worker has ended.
    pub fn close(&mut self)
        ensures
            final(self)@ == old(self)@.ended(),
            old(self)@.well_formed() ==> final(self)@.well_formed(),
    {
        self.pending = None;
        self.receiving = false;
    }

    /// Notes that the owner of the worker is gone.
    pub fn abandon(&mut self)
        ensures
            final(self)@ == (ResidentReloadWorker { owned: false, ..old(self)@ }),
            old(self)@.well_formed() ==> final(self)@.well_formed(),
    {
        self.owned = false;
    }

    /// Asks the worker to end. What came of it is to be had from `shutdown` once the thread has
    /// been waited for.
    pub fn begin_shutdown(&mut self)
        ensures
            final(self)@ == old(self)@.asked_to_end(),
            old(self)@.well_formed() ==> final(self)@.well_formed(),
    {
        self.stopping = true;
        self.try_send(ResidentWorkerCommand::Shutdown);
    }

    /// What ending the worker came to.
    pub fn shutdown(&self, end: WorkerEnd) -> (outcome: Result<(), String>)
        ensures
            views::done_view(outcome) == self@.end_answer(end),
    {
        if end == WorkerEnd::Panicked {
            return Err("resident reload worker panicked".to_owned());
        }
        match self.failure_message() {
            Some(e) => Err(e),
            None => Ok(()),
        }
    }

    /// Why the worker gave up, if it did.
    pub fn failure_message(&self) -> (message: Option<String>)
        ensures
            views::maybe_view(message) == self@.failure,
    {
        match &self.failure {
            Some(e) => Some(e.clone()),
            None => None,
        }
    }
}

/// However many requests to reload come in while the worker takes none of them up, one waits: the
/// worker gets one command to reload, and then none.
pub proof fn law_requests_coalesce(worker: ResidentReloadWorker<Seq<char>>, n: nat)
    requires
        worker.well_formed(),
        worker.owned,
        worker.receiving,
        worker.pending is None,
        n > 0,
    ensures
        worker.requested(n).command() == Ok::<_, NoCommand>(ResidentWorkerCommand::Reload),
        worker.requested(n).emptied().command() == Err::<ResidentWorkerCommand, _>(
            NoCommand::Empty,
        ),
        worker.requested(n) == worker.requested(1),
    decreases n,
{
    reveal_with_fuel(ResidentReloadWorker::requested, 2);
    if n > 1 {
        law_requests_coalesce(worker, (n - 1) as nat);
    }
}

/// A request that is accepted is met: the next command that the worker gets makes it reload, unless
/// it is to end.
pub proof fn law_accepted_request_is_met(worker: ResidentReloadWorker<Seq<char>>)
    requires
        worker.well_formed(),
        worker.request_answer() is Ok,
    ensures
        ({
            let asked = worker.handed(ResidentWorkerCommand::Reload);
            asked.command() matches Ok(command) && (asked.stopping || asked.reloads_on(command))
        }),
{
}

/// Once it has been asked to end, a worker starts no further reload, whatever it is handed, and one
/// that still takes commands has one to wake it.
pub proof fn law_no_reload_after_the_end_was_asked(
    worker: ResidentReloadWorker<Seq<char>>,
    command: ResidentWorkerCommand,
)
    requires
        worker.well_formed(),
    ensures
        !worker.asked_to_end().reloads_on(command),
        worker.asked_to_end().receiving ==> worker.asked_to_end().command() is Ok,
        worker.asked_to_end().well_formed(),
{
}

/// A worker that gave up takes up no further command, and says why it gave up to whoever asks it to
/// reload or waits for its end.
pub proof fn law_failure_is_told(worker: ResidentReloadWorker<Seq<char>>, error: Seq<char>)
    requires
        worker.well_formed(),
    ensures
        ({
            let failed = worker.reloaded(Err(error));
            &&& failed.well_formed()
            &&& forall|command: ResidentWorkerCommand| !failed.reloads_on(command)
            &&& failed.ended().request_answer() == Err::<(), _>(error)
            &&& failed.ended().end_answer(WorkerEnd::Joined) == Err::<(), _>(error)
            &&& failed.asked_to_end().ended().end_answer(WorkerEnd::Joined) == Err::<(), _>(error)
        }),
{
}

/// Where the thread of the worker stands.
#[derive(Clone, Copy, Debug, PartialEq, Eq, Structural)]
pub enum WorkerState {
    /// A command is being waited for.
    Receiving,
    /// A reload goes on.
    Reloading,
    /// The service is being told to go down.
    GoingDown,
    /// The thread is at its end.
    Finished,
}

/// The thread of the worker.
#[derive(Clone, Copy, Debug, PartialEq, Eq, Structural)]
pub struct WorkerRun {
    /// Where it stands.
    pub state: WorkerState,
}

/// What the thread of the worker asks for.
#[derive(Clone, Copy, Debug, PartialEq, Eq, Structural)]
pub enum WorkerAction {
    /// Look for a command, again whenever what is shared has changed.
    Receive,
    /// Reload.
    Reload,
    /// Tell the service to go down.
    GoDown,
    /// The thread is at its end.
    Return,
}

/// What an action of the thread of the worker came to. Texts are `T`.
#[derive(Debug)]
pub enum WorkerEvent<T> {
    /// What is shared is to be looked at.
    Looked,
    /// What a reload came to.
    Reloaded(Result<(), T>),
    /// The service has been told to go down.
    WentDown,
}

impl View for WorkerEvent<String> {
    type V = WorkerEvent<Seq<char>>;

    open spec fn view(&self) -> WorkerEvent<Seq<char>> {
        match self {
            WorkerEvent::Looked => WorkerEvent::Looked,
            WorkerEvent::Reloaded(r) => WorkerEvent::Reloaded(views::done_view(*r)),
            WorkerEvent::WentDown => WorkerEvent::WentDown,
        }
    }
}

impl WorkerRun {
    /// A thread that has just begun.
    pub open spec fn started() -> Self {
        WorkerRun { state: WorkerState::Receiving }
    }

    /// What the thread asks for.
    pub open spec fn asks(self) -> WorkerAction {
        match self.state {
            WorkerState::Receiving => WorkerAction::Receive,
            WorkerState::Reloading => WorkerAction::Reload,
            WorkerState::GoingDown => WorkerAction::GoDown,
            WorkerState::Finished => WorkerAction::Return,
        }
    }

    /// The thread, and what it shares with its owner, after it has been told `event`. A command to
    /// reload is taken up unless the worker is to end; any other command ends the thread, and so
    /// does an owner that is gone. A reload that failed is noted, and then the service is told to
    /// go down. A thread at its end takes no commands. An event that answers nothing asked for
    /// changes nothing.
    pub open spec fn after(
        self,
        shared: ResidentReloadWorker<Seq<char>>,
        event: WorkerEvent<Seq<char>>,
    ) -> (Self, ResidentReloadWorker<Seq<char>>) {
        let finished = WorkerRun { state: WorkerState::Finished };
        match (self.state, event) {
            (WorkerState::Receiving, WorkerEvent::Looked) => match shared.command() {
                Ok(command) => if shared.reloads_on(command) {
                    (WorkerRun { state: WorkerState::Reloading }, shared.emptied())
                } else {
                    (finished, shared.ended())
                },
                Err(NoCommand::Empty) => (self, shared),
                Err(NoCommand::Disconnected) => (finished, shared.ended()),
            },
            (WorkerState::Reloading, WorkerEvent::Reloaded(outcome)) => (
                WorkerRun {
                    state: if outcome is Ok {
                        WorkerState::Receiving
                    } else {
                        WorkerState::GoingDown
                    },
                },
                shared.reloaded(outcome),
            ),
            (WorkerState::GoingDown, WorkerEvent::WentDown) => (finished, shared.ended()),
            _ => (self, shared),
        }
    }
}

/// Begins the thread of the worker.
pub fn run_worker() -> (run: WorkerRun)
    ensures
        run == WorkerRun::started(),
{
    WorkerRun { state: WorkerState::Receiving }
}

impl WorkerRun {
    /// What the thread asks for.
    pub fn action(&self) -> (action: WorkerAction)
        ensures
            action == self.asks(),
    {
        match self.state {
            WorkerState::Receiving => WorkerAction::Receive,
            WorkerState::Reloading => WorkerAction::Reload,
            WorkerState::GoingDown => WorkerAction::GoDown,
            WorkerState::Finished => WorkerAction::Return,
        }
    }

    /// Tells the thread what came of its action, with what it shares with its owner at hand.
    pub fn tell(self, shared: &mut ResidentReloadWorker<String>, event: WorkerEvent<String>) -> (run:
        Self)
        ensures
            (run, final(shared)@) == self.after(old(shared)@, event@),
            old(shared)@.well_formed() ==> final(shared)@.well_formed(),
    {
        match (self.state, event) {
            (WorkerState::Receiving, WorkerEvent::Looked) => match shared.try_recv() {
                Ok(command) => {
                    if shared.takes_up(command) {
                        WorkerRun { state: WorkerState::Reloading }
                    } else {
                        shared.close();
                        WorkerRun { state: WorkerState::Finished }
                    }
                },
                Err(NoCommand::Empty) => self,
                Err(NoCommand::Disconnected) => {
                    shared.close();
                    WorkerRun { state: WorkerState::Finished }
                },
            },
            (WorkerState::Reloading, WorkerEvent::Reloaded(outcome)) => {
                if shared.finish_reload(outcome) {
                    WorkerRun { state: WorkerState::Receiving }
                } else {
                    WorkerRun { state: WorkerState::GoingDown }
                }
            },
            (WorkerState::GoingDown, WorkerEvent::WentDown) => {
                shared.close();
                WorkerRun { state: WorkerState::Finished }
            },
            _ => self,
        }
    }
}

/// What can happen to a worker: its owner asks it to reload, asks it to end, or goes away, or its
/// thread is told what came of its action.
pub enum WorkerStep {
    /// The owner asks the worker to reload.
    Request,
    /// The owner asks the worker to end.
    Shutdown,
    /// The owner goes away.
    Abandon,
    /// The thread is told.
    Thread(WorkerEvent<Seq<char>>),
}

/// A worker as a whole: its thread, and what the thread shares with the owner.
pub struct WorkerPair {
    /// The thread.
    pub run: WorkerRun,
    /// What is shared.
    pub shared: ResidentReloadWorker<Seq<char>>,
}

impl WorkerPair {
    /// A worker that has just begun.
    pub open spec fn started() -> Self {
        WorkerPair { run: WorkerRun::started(), shared: ResidentReloadWorker::fresh() }
    }

    /// The worker after `step`.
    pub open spec fn after(self, step: WorkerStep) -> Self {
        match step {
            WorkerStep::Request => WorkerPair {
                shared: self.shared.handed(ResidentWorkerCommand::Reload),
                ..self
            },
            WorkerStep::Shutdown => WorkerPair { shared: self.shared.asked_to_end(), ..self },
            WorkerStep::Abandon => WorkerPair {
                shared: ResidentReloadWorker { owned: false, ..self.shared },
                ..self
            },
            WorkerStep::Thread(event) => {
                let (run, shared) = self.run.after(self.shared, event);
                WorkerPair { run, shared }
            },
        }
    }

    /// The worker after all of `steps`, one after the other.
    pub open spec fn after_all(self, steps: Seq<WorkerStep>) -> Self
        decreases steps.len(),
    {
        if steps.len() == 0 {
            self
        } else {
            self.after_all(steps.drop_last()).after(steps.last())
        }
    }

    /// At the step numbered `i`, the thread asked for a reload, and was told that it failed with
    /// `error`.
    pub open spec fn reload_failed(self, steps: Seq<WorkerStep>, i: int, error: Seq<char>) -> bool {
        &&& 0 <= i < steps.len()
        &&& self.after_all(steps.take(i)).run.asks() == WorkerAction::Reload
        &&& steps[i] == WorkerStep::Thread(WorkerEvent::Reloaded(Err(error)))
    }
}

/// The service is told to go down exactly after a reload that failed: the thread begins to ask for
/// that if and only if it asked for a reload and was told that it failed. The failure and that the
/// worker is to end have been noted by then.
pub proof fn law_service_goes_down_exactly_after_a_failed_reload(
    worker: WorkerPair,
    step: WorkerStep,
)
    requires
        worker.run.asks() != WorkerAction::GoDown,
    ensures
        worker.after(step).run.asks() == WorkerAction::GoDown <==> worker.run.asks()
            == WorkerAction::Reload && step matches WorkerStep::Thread(WorkerEvent::Reloaded(Err(_))),
        worker.run.asks() == WorkerAction::Reload ==> (step matches WorkerStep::Thread(
            WorkerEvent::Reloaded(Err(e)),
        ) ==> worker.after(step).shared.failure == Some(e) && worker.after(step).shared.stopping),
{
}

/// However the owner and the thread take turns: where the service is told to go down, a reload has
/// failed, why it did is noted, and the worker is to end; and a worker that gave up did so because
/// of a reload that failed for the reason that is noted.
pub proof fn law_giving_up_has_a_reason(steps: Seq<WorkerStep>)
    ensures
        ({
            let start = WorkerPair::started();
            let worker = start.after_all(steps);
            &&& worker.shared.well_formed()
            &&& worker.run.asks() == WorkerAction::GoDown ==> worker.shared.failure is Some
                && worker.shared.stopping
            &&& worker.run.asks() == WorkerAction::Return ==> !worker.shared.receiving
            &&& worker.shared.failure matches Some(e) ==> (worker.run.asks()
                == WorkerAction::GoDown || worker.run.asks() == WorkerAction::Return) && exists|i: int|
                start.reload_failed(steps, i, e)
        }),
    decreases steps.len(),
{
    let start = WorkerPair::started();
    if steps.len() > 0 {
        let rest = steps.drop_last();
        let n = steps.len() - 1;
        let before = start.after_all(rest);
        law_giving_up_has_a_reason(rest);
        assert(steps.take(n) =~= rest);
        if let Some(e) = start.after_all(steps).shared.failure {
            if before.shared.failure == Some(e) {
                let i = choose|i: int| start.reload_failed(rest, i, e);
                assert(rest.take(i) =~= steps.take(i));
                assert(start.reload_failed(steps, i, e));
            } else {
                assert(start.reload_failed(steps, n, e));
            }
        }
    }
}

/// Once the worker is to end and no reload goes on, its thread asks for no further reload, however
/// the owner and the thread take turns; and the worker is to end for good.
pub proof fn law_no_reload_once_the_worker_is_to_end(worker: WorkerPair, steps: Seq<WorkerStep>)
    requires
        worker.shared.stopping,
        worker.run.asks() != WorkerAction::Reload,
    ensures
        worker.after_all(steps).shared.stopping,
        worker.after_all(steps).run.asks() != WorkerAction::Reload,
    decreases steps.len(),
{
    if steps.len() > 0 {
        law_no_reload_once_the_worker_is_to_end(worker, steps.drop_last());
    }
}

/// A worker that has just begun waits for a command, with its owner there, and has none.
pub proof fn law_worker_begins()
    ensures
        ({
            let worker = WorkerPair::started();
            &&& worker.run.asks() == WorkerAction::Receive
            &&& worker.shared.pending is None
            &&& worker.shared.owned
            &&& worker.shared.receiving
            &&& !worker.shared.stopping
            &&& worker.shared.failure is None
            &&& worker.shared.well_formed()
        }),
{
}

/// The thread that looks for a command takes up a reload unless the worker is to end, ends on any
/// other command and where its owner is gone with no command left, and else looks on. At its end it
/// takes no command any more.
pub proof fn law_thread_takes_commands(worker: WorkerPair)
    requires
        worker.run.asks() == WorkerAction::Receive,
    ensures
        ({
            let next = worker.after(WorkerStep::Thread(WorkerEvent::Looked));
            let taken = ResidentReloadWorker { pending: None, ..worker.shared };
            let closed = ResidentReloadWorker { pending: None, receiving: false, ..worker.shared };
            &&& worker.shared.pending == Some(ResidentWorkerCommand::Reload)
                && !worker.shared.stopping ==> next.run.asks() == WorkerAction::Reload
                && next.shared == taken
            &&& worker.shared.pending == Some(ResidentWorkerCommand::Reload)
                && worker.shared.stopping ==> next.run.asks() == WorkerAction::Return
                && next.shared == closed
            &&& worker.shared.pending == Some(ResidentWorkerCommand::Shutdown) ==> next.run.asks()
                == WorkerAction::Return && next.shared == closed
            &&& worker.shared.pending is None && worker.shared.owned ==> next.run == worker.run
                && next.shared == worker.shared
            &&& worker.shared.pending is None && !worker.shared.owned ==> next.run.asks()
                == WorkerAction::Return && next.shared == closed
        }),
{
}

/// After a reload that succeeded the thread looks for a command again, with nothing changed; after
/// one that failed it notes why, and that the worker is to end, has the service told to go down,
/// and ends.
pub proof fn law_thread_goes_on_after_a_reload(worker: WorkerPair, e: Seq<char>)
    ensures
        worker.run.asks() == WorkerAction::Reload ==> ({
            let good = worker.after(WorkerStep::Thread(WorkerEvent::Reloaded(Ok(()))));
            let bad = worker.after(WorkerStep::Thread(WorkerEvent::Reloaded(Err(e))));
            &&& good.run.asks() == WorkerAction::Receive
            &&& good.shared == worker.shared
            &&& bad.run.asks() == WorkerAction::GoDown
            &&& bad.shared == (ResidentReloadWorker {
                failure: Some(e),
                stopping: true,
                ..worker.shared
            })
        }),
        worker.run.asks() == WorkerAction::GoDown ==> ({
            let over = worker.after(WorkerStep::Thread(WorkerEvent::WentDown));
            &&& over.run.asks() == WorkerAction::Return
            &&& over.shared == (ResidentReloadWorker {
                pending: None,
                receiving: false,
                ..worker.shared
            })
        }),
{
}

/// What does not answer the question of the thread changes nothing, and neither does anything that
/// it is told once it is over.
pub proof fn law_thread_hears_only_answers(worker: WorkerPair, event: WorkerEvent<Seq<char>>)
    ensures
        !(match worker.run.asks() {
            WorkerAction::Receive => event is Looked,
            WorkerAction::Reload => event is Reloaded,
            WorkerAction::GoDown => event is WentDown,
            WorkerAction::Return => false,
        }) ==> worker.after(WorkerStep::Thread(event)) == worker,
{
}

/// What the owner does changes what is shared and nothing of the thread: a request waits where the
/// worker takes commands and none waits, and is lost elsewhere; the end is asked for in any case,
/// with a command to wake the worker under the same condition; and an owner that goes away is gone.
pub proof fn law_owner_changes_what_is_shared(worker: WorkerPair)
    ensures
        ({
            let free = worker.shared.receiving && worker.shared.pending is None;
            let requested = worker.after(WorkerStep::Request);
            let ended = worker.after(WorkerStep::Shutdown);
            let left = worker.after(WorkerStep::Abandon);
            &&& requested.run == worker.run
            &&& ended.run == worker.run
            &&& left.run == worker.run
            &&& free ==> requested.shared == (ResidentReloadWorker {
                pending: Some(ResidentWorkerCommand::Reload),
                ..worker.shared
            })
            &&& !free ==> requested.shared == worker.shared
            &&& free ==> ended.shared == (ResidentReloadWorker {
                stopping: true,
                pending: Some(ResidentWorkerCommand::Shutdown),
                ..worker.shared
            })
            &&& !free ==> ended.shared == (ResidentReloadWorker {
                stopping: true,
                ..worker.shared
            })
            &&& left.shared == (ResidentReloadWorker { owned: false, ..worker.shared })
        }),
{
}

/// A request to reload is refused only by a worker that takes no commands: with why it gave up, or,
/// where it did not, as stopped without reason. Ending a worker comes to why it gave up, unless its
/// thread panicked, and to nothing where it did not give up.
pub proof fn law_owner_is_answered(worker: ResidentReloadWorker<Seq<char>>, e: Seq<char>)
    ensures
        worker.receiving ==> worker.request_answer() == Ok::<(), Seq<char>>(()),
        !worker.receiving && worker.failure == Some(e) ==> worker.request_answer() == Err::<(), _>(e),
        !worker.receiving && worker.failure is None ==> worker.request_answer() == Err::<(), _>(
            "resident reload worker stopped unexpectedly"@,
        ),
        worker.end_answer(WorkerEnd::Panicked) == Err::<(), _>("resident reload worker panicked"@),
        worker.failure is None ==> worker.end_answer(WorkerEnd::Joined) == Ok::<(), Seq<char>>(())
            && worker.end_answer(WorkerEnd::NoThread) == Ok::<(), Seq<char>>(()),
        worker.failure == Some(e) ==> worker.end_answer(WorkerEnd::Joined) == Err::<(), _>(e)
            && worker.end_answer(WorkerEnd::NoThread) == Err::<(), _>(e),
        worker.pending is Some ==> worker.command() == Ok::<_, NoCommand>(worker.pending->0),
        worker.pending is None && worker.owned ==> worker.command() == Err::<
            ResidentWorkerCommand,
            _,
        >(NoCommand::Empty),
        worker.pending is None && !worker.owned ==> worker.command() == Err::<
            ResidentWorkerCommand,
            _,
        >(NoCommand::Disconnected),
{
}

/// A command makes the worker reload if and only if it asks for that and the worker is not to end.
/// Taking a command, noting what a reload came to, and the end of the thread change what they are
/// about and nothing else; a command is handed over where the worker takes commands and none waits.
pub proof fn law_each_note_changes_its_own(
    worker: ResidentReloadWorker<Seq<char>>,
    command: ResidentWorkerCommand,
    e: Seq<char>,
)
    ensures
        worker.reloads_on(ResidentWorkerCommand::Reload) <==> !worker.stopping,
        !worker.reloads_on(ResidentWorkerCommand::Shutdown),
        worker.emptied() == (ResidentReloadWorker { pending: None, ..worker }),
        worker.reloaded(Ok(())) == worker,
        worker.reloaded(Err(e)) == (ResidentReloadWorker {
            failure: Some(e),
            stopping: true,
            ..worker
        }),
        worker.ended() == (ResidentReloadWorker { pending: None, receiving: false, ..worker }),
        worker.receiving && worker.pending is None ==> worker.handed(command) == (
        ResidentReloadWorker { pending: Some(command), ..worker }),
        !worker.receiving || worker.pending is Some ==> worker.handed(command) == worker,
{
}

/// What an event is shown to tell is what it tells, with everything that it holds.
pub proof fn law_event_is_shown_as_it_is(event: WorkerEvent<String>)
    ensures
        match event {
            WorkerEvent::Looked => event@ == WorkerEvent::<Seq<char>>::Looked,
            WorkerEvent::Reloaded(r) => event@
                == WorkerEvent::<Seq<char>>::Reloaded(views::done_view(r)),
            WorkerEvent::WentDown => event@ == WorkerEvent::<Seq<char>>::WentDown,
        },
{
}

} // verus!
