//! The runtime of the service: what it is checked against before it is replaced, and how it is
//! replaced.

use crate::views::{self, copy_done, join2, join3};
use vstd::prelude::*;

verus! {

/// The runtime of the service, and the configuration that it was started with.
#[derive(Debug)]
pub struct ResidentServiceState<R, C> {
    /// The runtime, where one is running.
    pub runtime: Option<R>,
    /// The configuration.
    pub config: C,
}

impl<R, C> ResidentServiceState<R, C> {
    /// Drops the runtime, if one is running.
    pub fn drop_runtime(&mut self)
        ensures
            final(self).runtime is None,
            final(self).config == old(self).config,
    {
        self.runtime = None;
    }

    /// Keeps a runtime that has been started.
    pub fn keep_runtime(&mut self, runtime: R)
        ensures
            final(self).runtime == Some(runtime),
            final(self).config == old(self).config,
    {
        self.runtime = Some(runtime);
    }

    /// Makes that one of the two configurations current that a replacement left behind.
    pub fn settle(&mut self, next_config: C, config: SwapConfig)
        ensures
            final(self).runtime == old(self).runtime,
            final(self).config == (match config {
                SwapConfig::Next => next_config,
                SwapConfig::Previous => old(self).config,
            }),
    {
        match config {
            SwapConfig::Next => {
                self.config = next_config;
            },
            SwapConfig::Previous => {},
        }
    }
}

/// In whose name a configuration is rejected.
pub open spec fn rejection() -> Seq<char> {
    "resident reload rejected before current runtime swap"@
}

/// What the check of a configuration comes to, where the interfaces on the outside could not be
/// told because of `error`.
pub open spec fn rejection_because(error: Seq<char>) -> Seq<char> {
    "resident reload rejected before current runtime swap: "@ + error
}

/// Checks `config` before the runtime is replaced: its interfaces on the inside (`lan`) and on the
/// outside (`wan`) have to pass `validate`, which is told in whose name it rejects them.
pub fn validate_resident_runtime_reload_config<C, L, W>(
    config: &C,
    configured_lan_ifaces: impl Fn(&C) -> L,
    configured_wan_ifaces: impl Fn(&C) -> Result<W, String>,
    validate_resident_runtime_interfaces: impl Fn(&L, &W, &str) -> Result<(), String>,
) -> (outcome: Result<(), String>)
    requires
        configured_lan_ifaces.requires((config,)),
        configured_wan_ifaces.requires((config,)),
        forall|lan: &L, wan: &W, name: &str|
            name@ == rejection() ==> validate_resident_runtime_interfaces.requires(
                (lan, wan, name),
            ),
    ensures
        exists|lan: L, wan: Result<W, String>|
            {
                &&& #[trigger] configured_lan_ifaces.ensures((config,), lan)
                &&& #[trigger] configured_wan_ifaces.ensures((config,), wan)
                &&& match wan {
                    Err(e) => views::done_view(outcome) == Err::<(), _>(rejection_because(e@)),
                    Ok(w) => exists|name: &str|
                        name@ == rejection()
                            && #[trigger] validate_resident_runtime_interfaces.ensures(
                            (&lan, &w, name),
                            outcome,
                        ),
                }
            },
{
    let lan = configured_lan_ifaces(config);
    let wan = configured_wan_ifaces(config);
    assert(configured_lan_ifaces.ensures((config,), lan));
    assert(configured_wan_ifaces.ensures((config,), wan));
    match wan {
        Err(e) => Err(
            join2("resident reload rejected before current runtime swap: ", e.as_str()),
        ),
        Ok(w) => {
            let name = "resident reload rejected before current runtime swap";
            let outcome = validate_resident_runtime_interfaces(&lan, &w, name);
            assert(validate_resident_runtime_interfaces.ensures((&lan, &w, name), outcome));
            outcome
        },
    }
}

/// What is said where the next runtime did not start, and the previous one was started again.
pub open spec fn restored_message(start_error: Seq<char>) -> Seq<char> {
    start_error + "\nrestore: restored previous resident runtime"@
}

/// What is said where neither the next runtime nor the previous one started.
pub open spec fn lost_message(start_error: Seq<char>, restore_error: Seq<char>) -> Seq<char> {
    start_error + "\nrestore failed while restoring previous resident runtime: "@ + restore_error
}

/// One of the two configurations of a replacement.
#[derive(Clone, Copy, Debug, PartialEq, Eq, Structural)]
pub enum SwapConfig {
    /// The one that is to take over.
    Next,
    /// The one that was current when the replacement began.
    Previous,
}

/// Where the replacement of a runtime stands. Texts are `T`.
#[derive(Debug)]
pub enum SwapState<T> {
    /// The runtime that was there is being dropped.
    Dropping,
    /// A runtime is being started with the next configuration.
    StartingNext,
    /// A runtime is being started with the previous configuration, because of `start_error`.
    StartingPrevious { start_error: T },
    /// The replacement is over: what it came to, the configuration that is current now, and whether
    /// a runtime runs.
    Finished { outcome: Result<(), T>, config: SwapConfig, running: bool },
}

/// The replacement of a runtime. Texts are `T`.
#[derive(Debug)]
pub struct SwapRun<T> {
    /// Where it stands.
    pub state: SwapState<T>,
}

/// What the replacement of a runtime asks for. Texts are `T`.
#[derive(Debug)]
pub enum SwapAction<T> {
    /// Drop the runtime that is there, if any.
    DropRuntime,
    /// Start a runtime with this configuration, and keep it if it starts.
    Start(SwapConfig),
    /// The replacement is over: what it came to, the configuration that is current now, and whether
    /// a runtime runs.
    Return { outcome: Result<(), T>, config: SwapConfig, running: bool },
}

/// What an action of the replacement came to. Texts are `T`.
#[derive(Debug)]
pub enum SwapEvent<T> {
    /// The runtime is gone.
    Dropped,
    /// A runtime started, or not.
    Started(Result<(), T>),
}

impl View for SwapRun<String> {
    type V = SwapRun<Seq<char>>;

    open spec fn view(&self) -> SwapRun<Seq<char>> {
        SwapRun {
            state: match self.state {
                SwapState::Dropping => SwapState::Dropping,
                SwapState::StartingNext => SwapState::StartingNext,
                SwapState::StartingPrevious { start_error } => SwapState::StartingPrevious {
                    start_error: start_error@,
                },
                SwapState::Finished { outcome, config, running } => SwapState::Finished {
                    outcome: views::done_view(outcome),
                    config,
                    running,
                },
            },
        }
    }
}

impl View for SwapAction<String> {
    type V = SwapAction<Seq<char>>;

    open spec fn view(&self) -> SwapAction<Seq<char>> {
        match self {
            SwapAction::DropRuntime => SwapAction::DropRuntime,
            SwapAction::Start(config) => SwapAction::Start(*config),
            SwapAction::Return { outcome, config, running } => SwapAction::Return {
                outcome: views::done_view(*outcome),
                config: *config,
                running: *running,
            },
        }
    }
}

impl View for SwapEvent<String> {
    type V = SwapEvent<Seq<char>>;

    open spec fn view(&self) -> SwapEvent<Seq<char>> {
        match self {
            SwapEvent::Dropped => SwapEvent::Dropped,
            SwapEvent::Started(r) => SwapEvent::Started(views::done_view(*r)),
        }
    }
}

impl SwapRun<Seq<char>> {
    /// A replacement that has just begun.
    pub open spec fn started() -> Self {
        SwapRun { state: SwapState::Dropping }
    }

    /// What the replacement asks for.
    pub open spec fn asks(self) -> SwapAction<Seq<char>> {
        match self.state {
            SwapState::Dropping => SwapAction::DropRuntime,
            SwapState::StartingNext => SwapAction::Start(SwapConfig::Next),
            SwapState::StartingPrevious { start_error } => SwapAction::Start(SwapConfig::Previous),
            SwapState::Finished { outcome, config, running } => SwapAction::Return {
                outcome,
                config,
                running,
            },
        }
    }

    /// The replacement after it has been told `event`. An event that answers nothing asked for
    /// changes nothing.
    pub open spec fn after(self, event: SwapEvent<Seq<char>>) -> Self {
        let state = match (self.state, event) {
            (SwapState::Dropping, SwapEvent::Dropped) => SwapState::StartingNext,
            (SwapState::StartingNext, SwapEvent::Started(Ok(()))) => SwapState::Finished {
                outcome: Ok(()),
                config: SwapConfig::Next,
                running: true,
            },
            (SwapState::StartingNext, SwapEvent::Started(Err(e))) => SwapState::StartingPrevious {
                start_error: e,
            },
            (
                SwapState::StartingPrevious { start_error },
                SwapEvent::Started(Ok(())),
            ) => SwapState::Finished {
                outcome: Err(restored_message(start_error)),
                config: SwapConfig::Previous,
                running: true,
            },
            (
                SwapState::StartingPrevious { start_error },
                SwapEvent::Started(Err(e)),
            ) => SwapState::Finished {
                outcome: Err(lost_message(start_error, e)),
                config: SwapConfig::Previous,
                running: false,
            },
            (state, _) => state,
        };
        SwapRun { state }
    }

    /// The replacement after it has been told all of `events`, one after the other.
    pub open spec fn after_all(self, events: Seq<SwapEvent<Seq<char>>>) -> Self
        decreases events.len(),
    {
        if events.len() == 0 {
            self
        } else {
            self.after_all(events.drop_last()).after(events.last())
        }
    }

    /// At the event numbered `i`, the replacement asked for the runtime to be dropped, and was told
    /// that it is gone.
    pub open spec fn dropped(self, events: Seq<SwapEvent<Seq<char>>>, i: int) -> bool {
        &&& 0 <= i < events.len()
        &&& self.after_all(events.take(i)).asks() is DropRuntime
        &&& events[i] is Dropped
    }

    /// The starts that were asked for and answered, in order.
    pub open spec fn starts(self, events: Seq<SwapEvent<Seq<char>>>) -> Seq<SwapConfig>
        decreases events.len(),
    {
        if events.len() == 0 {
            seq![]
        } else {
            let before = self.starts(events.drop_last());
            match (self.after_all(events.drop_last()).asks(), events.last()) {
                (SwapAction::Start(config), SwapEvent::Started(_)) => before.push(config),
                _ => before,
            }
        }
    }
}

/// Begins to replace the runtime by one that is started with the next configuration. The runtime
/// that is there is dropped first. Where the next one does not start, one is started again with the
/// configuration that was current, which then stays so.
pub fn swap_runtime_with_restore() -> (run: SwapRun<String>)
    ensures
        run@ == SwapRun::started(),
{
    SwapRun { state: SwapState::Dropping }
}

impl SwapRun<String> {
    /// What the replacement asks for.
    pub fn action(&self) -> (action: SwapAction<String>)
        ensures
            action@ == self@.asks(),
    {
        match &self.state {
            SwapState::Dropping => SwapAction::DropRuntime,
            SwapState::StartingNext => SwapAction::Start(SwapConfig::Next),
            SwapState::StartingPrevious { start_error } => SwapAction::Start(SwapConfig::Previous),
            SwapState::Finished { outcome, config, running } => SwapAction::Return {
                outcome: copy_done(outcome),
                config: *config,
                running: *running,
            },
        }
    }

    /// Tells the replacement what came of its action.
    pub fn tell(self, event: SwapEvent<String>) -> (run: Self)
        ensures
            run@ == self@.after(event@),
    {
        let state: SwapState<String> = match (self.state, event) {
            (SwapState::Dropping, SwapEvent::Dropped) => SwapState::StartingNext,
            (SwapState::StartingNext, SwapEvent::Started(Ok(()))) => SwapState::Finished {
                outcome: Ok(()),
                config: SwapConfig::Next,
                running: true,
            },
            (SwapState::StartingNext, SwapEvent::Started(Err(start_error))) => {
                SwapState::StartingPrevious { start_error }
            },
            (SwapState::StartingPrevious { start_error }, SwapEvent::Started(Ok(()))) => {
                SwapState::Finished {
                    outcome: Err(
                        join2(
                            start_error.as_str(),
                            "\nrestore: restored previous resident runtime",
                        ),
                    ),
                    config: SwapConfig::Previous,
                    running: true,
                }
            },
            (SwapState::StartingPrevious { start_error }, SwapEvent::Started(Err(restore_error))) => {
                SwapState::Finished {
                    outcome: Err(
                        join3(
                            start_error.as_str(),
                            "\nrestore failed while restoring previous resident runtime: ",
                            restore_error.as_str(),
                        ),
                    ),
                    config: SwapConfig::Previous,
                    running: false,
                }
            },
            (state, _) => state,
        };
        SwapRun { state }
    }
}

impl SwapRun<Seq<char>> {
    /// How many answers are at most still to come.
    pub open spec fn answers_left(self) -> nat {
        match self.state {
            SwapState::Dropping => 3,
            SwapState::StartingNext => 2,
            SwapState::StartingPrevious { start_error } => 1,
            SwapState::Finished { outcome, config, running } => 0,
        }
    }
}

/// What a replacement leaves behind, where `first` is what starting a runtime with the next
/// configuration came to, and `second` what starting one with the previous configuration came to if
/// that was tried.
pub open spec fn swap_left<R, C>(
    before: ResidentServiceState<R, C>,
    next_config: C,
    first: Result<R, String>,
    second: Result<R, String>,
    after: ResidentServiceState<R, C>,
    outcome: Result<(), String>,
) -> bool {
    match first {
        Ok(r) => outcome is Ok && after.runtime == Some(r) && after.config == next_config,
        Err(e) => {
            &&& after.config == before.config
            &&& match second {
                Ok(r) => after.runtime == Some(r) && views::done_view(outcome) == Err::<(), _>(
                    restored_message(e@),
                ),
                Err(f) => after.runtime is None && views::done_view(outcome) == Err::<(), _>(
                    lost_message(e@, f@),
                ),
            }
        },
    }
}

/// Carries the replacement of the runtime of `state` out: the runtime that is there is dropped, one
/// is started with `next_config`, and where that does not start, one is started again with the
/// configuration that was current. The configuration that stays is the one that the runtime which
/// stays was started with.
#[verifier::loop_isolation(false)]
pub fn swap_on<R, C>(
    state: &mut ResidentServiceState<R, C>,
    next_config: C,
    mut start_runtime: impl FnMut(&C) -> Result<R, String>,
) -> (outcome: Result<(), String>)
    requires
        start_runtime.requires((&next_config,)),
        start_runtime.requires((&old(state).config,)),
    ensures
        exists|first: Result<R, String>, second: Result<R, String>|
            {
                &&& #[trigger] start_runtime.ensures((&next_config,), first)
                &&& first is Err ==> start_runtime.ensures((&old(state).config,), second)
                &&& #[trigger] swap_left(
                    *old(state),
                    next_config,
                    first,
                    second,
                    *final(state),
                    outcome,
                )
            },
{
    let ghost before = *state;
    let ghost start = start_runtime;
    let ghost mut first: Result<R, String> = arbitrary();
    let ghost mut second: Result<R, String> = arbitrary();
    let mut run = swap_runtime_with_restore();
    loop
        invariant
            start_runtime == start,
            start.requires((&next_config,)),
            start.requires((&before.config,)),
            state.config == before.config,
            match run@.state {
                SwapState::Dropping => true,
                SwapState::StartingNext => state.runtime is None,
                SwapState::StartingPrevious { start_error } => {
                    &&& state.runtime is None
                    &&& start.ensures((&next_config,), first)
                    &&& first matches Err(e) && e@ == start_error
                },
                SwapState::Finished { outcome, config, running } => {
                    &&& running == (state.runtime is Some)
                    &&& start.ensures((&next_config,), first)
                    &&& match first {
                        Ok(r) => outcome is Ok && config == SwapConfig::Next && state.runtime
                            == Some(r),
                        Err(e) => {
                            &&& config == SwapConfig::Previous
                            &&& start.ensures((&before.config,), second)
                            &&& match second {
                                Ok(r) => state.runtime == Some(r) && outcome == Err::<(), _>(
                                    restored_message(e@),
                                ),
                                Err(f) => state.runtime is None && outcome == Err::<(), _>(
                                    lost_message(e@, f@),
                                ),
                            }
                        },
                    }
                },
            },
        decreases run@.answers_left(),
    {
        match run.action() {
            SwapAction::DropRuntime => {
                state.drop_runtime();
                run = run.tell(SwapEvent::Dropped);
            },
            SwapAction::Start(SwapConfig::Next) => match start_runtime(&next_config) {
                Ok(runtime) => {
                    proof {
                        first = Ok(runtime);
                    }
                    state.keep_runtime(runtime);
                    run = run.tell(SwapEvent::Started(Ok(())));
                },
                Err(e) => {
                    proof {
                        first = Err(e);
                    }
                    run = run.tell(SwapEvent::Started(Err(e)));
                },
            },
            SwapAction::Start(SwapConfig::Previous) => match start_runtime(&state.config) {
                Ok(runtime) => {
                    proof {
                        second = Ok(runtime);
                    }
                    state.keep_runtime(runtime);
                    run = run.tell(SwapEvent::Started(Ok(())));
                },
                Err(e) => {
                    proof {
                        second = Err(e);
                    }
                    run = run.tell(SwapEvent::Started(Err(e)));
                },
            },
            SwapAction::Return { outcome, config, running } => {
                let ghost next = next_config;
                state.settle(next_config, config);
                assert(swap_left(before, next, first, second, *state, outcome));
                return outcome;
            },
        }
    }
}

/// No runtime is asked to start before the one that was there is gone, so that no two of them ever
/// live at once: a start, and the end, are asked for only where the drop was asked for and told.
/// And from then on no drop is asked for again.
pub proof fn law_drop_comes_first(events: Seq<SwapEvent<Seq<char>>>)
    ensures
        ({
            let run = SwapRun::started();
            run.after_all(events).asks() is DropRuntime <==> !exists|i: int| run.dropped(events, i)
        }),
    decreases events.len(),
{
    let run = SwapRun::started();
    if events.len() > 0 {
        let rest = events.drop_last();
        let n = events.len() - 1;
        law_drop_comes_first(rest);
        assert(events.take(n) =~= rest);
        if exists|i: int| run.dropped(rest, i) {
            let i = choose|i: int| run.dropped(rest, i);
            assert(rest.take(i) =~= events.take(i));
            assert(run.dropped(events, i));
        } else if events.last() is Dropped {
            assert(run.dropped(events, n));
        } else if exists|i: int| run.dropped(events, i) {
            let i = choose|i: int| run.dropped(events, i);
            assert(rest.take(i) =~= events.take(i));
            assert(run.dropped(rest, i));
        }
    }
}

/// At most two starts are asked for: the first with the next configuration, and the second, only
/// where the first failed, with the previous one. A replacement that succeeds has made exactly the
/// first, and one that fails exactly both.
pub proof fn law_at_most_two_starts(events: Seq<SwapEvent<Seq<char>>>)
    ensures
        ({
            let run = SwapRun::started();
            let starts = run.starts(events);
            &&& starts.len() <= 2
            &&& match run.after_all(events).asks() {
                SwapAction::DropRuntime => starts == Seq::<SwapConfig>::empty(),
                SwapAction::Start(SwapConfig::Next) => starts == Seq::<SwapConfig>::empty(),
                SwapAction::Start(SwapConfig::Previous) => starts == seq![SwapConfig::Next],
                SwapAction::Return { outcome, config, running } => starts == if outcome is Ok {
                    seq![SwapConfig::Next]
                } else {
                    seq![SwapConfig::Next, SwapConfig::Previous]
                },
            }
        }),
    decreases events.len(),
{
    if events.len() > 0 {
        law_at_most_two_starts(events.drop_last());
    }
}

/// The starts decide what a replacement leaves behind, and whatever is told then changes nothing. A
/// replacement that succeeds leaves the next configuration, with a runtime that was started with
/// it; one that fails leaves the previous configuration, with a runtime unless restoring it failed
/// too.
pub proof fn law_config_and_runtime_stay_together(
    start_error: Seq<char>,
    restore_error: Seq<char>,
    later: SwapEvent<Seq<char>>,
)
    ensures
        ({
            let dropped = SwapRun::started().after(SwapEvent::Dropped);
            let swapped = dropped.after(SwapEvent::Started(Ok(())));
            let failed = dropped.after(SwapEvent::Started(Err(start_error)));
            let restored = failed.after(SwapEvent::Started(Ok(())));
            let lost = failed.after(SwapEvent::Started(Err(restore_error)));
            &&& dropped.asks() == SwapAction::<Seq<char>>::Start(SwapConfig::Next)
            &&& swapped.asks() == (SwapAction::<Seq<char>>::Return {
                outcome: Ok(()),
                config: SwapConfig::Next,
                running: true,
            })
            &&& failed.asks() == SwapAction::<Seq<char>>::Start(SwapConfig::Previous)
            &&& restored.asks() == (SwapAction::<Seq<char>>::Return {
                outcome: Err(restored_message(start_error)),
                config: SwapConfig::Previous,
                running: true,
            })
            &&& lost.asks() == (SwapAction::<Seq<char>>::Return {
                outcome: Err(lost_message(start_error, restore_error)),
                config: SwapConfig::Previous,
                running: false,
            })
            &&& swapped.after(later) == swapped
            &&& restored.after(later) == restored
            &&& lost.after(later) == lost
        }),
{
}

impl SwapRun<Seq<char>> {
    /// At the event numbered `i`, the replacement asked for a start with `config`, and was told
    /// that it failed with `error`.
    pub open spec fn start_failed(
        self,
        events: Seq<SwapEvent<Seq<char>>>,
        i: int,
        config: SwapConfig,
        error: Seq<char>,
    ) -> bool {
        &&& 0 <= i < events.len()
        &&& self.after_all(events.take(i)).asks() == SwapAction::<Seq<char>>::Start(config)
        &&& events[i] == SwapEvent::<Seq<char>>::Started(Err(error))
    }

    /// The start with the next configuration failed with `start_error`, and then the one with the
    /// previous configuration failed with `restore_error`.
    pub open spec fn both_failed(
        self,
        events: Seq<SwapEvent<Seq<char>>>,
        start_error: Seq<char>,
        restore_error: Seq<char>,
    ) -> bool {
        exists|i: int, j: int|
            i < j && #[trigger] self.start_failed(events, i, SwapConfig::Next, start_error)
                && #[trigger] self.start_failed(events, j, SwapConfig::Previous, restore_error)
    }

    /// The replacement is over, and no runtime runs.
    pub open spec fn without_runtime(self) -> bool {
        self.asks() matches SwapAction::Return { outcome: _, config: _, running } && !running
    }

    /// The replacement is over, came to `outcome`, and a runtime runs or not.
    pub open spec fn ended(
        self,
        events: Seq<SwapEvent<Seq<char>>>,
        outcome: Result<(), Seq<char>>,
        running: bool,
    ) -> bool {
        self.after_all(events).asks() matches SwapAction::Return {
            outcome: o,
            config: _,
            running: r,
        } && o == outcome && r == running
    }
}

/// A start that failed before an event has failed after it too, and the other way round but for the
/// event itself.
proof fn lemma_failure_stays(
    events: Seq<SwapEvent<Seq<char>>>,
    i: int,
    config: SwapConfig,
    error: Seq<char>,
)
    requires
        events.len() > 0,
    ensures
        ({
            let run = SwapRun::started();
            let rest = events.drop_last();
            &&& run.start_failed(rest, i, config, error) ==> run.start_failed(
                events,
                i,
                config,
                error,
            )
            &&& i < rest.len() && run.start_failed(events, i, config, error) ==> run.start_failed(
                rest,
                i,
                config,
                error,
            )
        }),
{
    let rest = events.drop_last();
    if 0 <= i < rest.len() {
        assert(rest.take(i) =~= events.take(i));
    }
}

impl SwapRun<Seq<char>> {
    /// Which starts have failed when a replacement stands at `state`.
    pub open spec fn failures_at(
        self,
        events: Seq<SwapEvent<Seq<char>>>,
        state: SwapState<Seq<char>>,
    ) -> bool {
        match state {
            SwapState::StartingPrevious { start_error } => exists|i: int|
                self.start_failed(events, i, SwapConfig::Next, start_error),
            SwapState::Finished { outcome, config, running } => !running ==> exists|
                e: Seq<char>,
                f: Seq<char>,
            | #[trigger]
                self.both_failed(events, e, f) && outcome == Err::<(), _>(lost_message(e, f)),
            _ => true,
        }
    }
}

/// The state of a replacement tells which of its starts failed.
proof fn lemma_failed_starts(events: Seq<SwapEvent<Seq<char>>>)
    ensures
        SwapRun::started().failures_at(events, SwapRun::started().after_all(events).state),
        forall|j: int, f: Seq<char>| #[trigger]
            SwapRun::started().start_failed(events, j, SwapConfig::Previous, f)
                ==> SwapRun::started().after_all(events).without_runtime(),
    decreases events.len(),
{
    let run = SwapRun::started();
    if events.len() > 0 {
        let rest = events.drop_last();
        let n = events.len() - 1;
        let last = events.last();
        let before = run.after_all(rest);
        let now = run.after_all(events);
        lemma_failed_starts(rest);
        assert(events.take(n) =~= rest);
        assert(now == before.after(last));
        assert(last matches SwapEvent::Started(Ok(unit)) ==> unit == ());
        assert forall|j: int, f: Seq<char>| #[trigger]
            run.start_failed(events, j, SwapConfig::Previous, f) implies run.after_all(
            events,
        ).without_runtime() by {
            lemma_failure_stays(events, j, SwapConfig::Previous, f);
            if j < n {
                assert(run.start_failed(rest, j, SwapConfig::Previous, f));
            }
        }
        match before.state {
            SwapState::StartingNext => {
                if let SwapEvent::Started(Err(e)) = last {
                    assert(run.start_failed(events, n, SwapConfig::Next, e));
                    assert(now.state->start_error == e);
                }
            },
            SwapState::StartingPrevious { start_error } => {
                let i = choose|i: int| run.start_failed(rest, i, SwapConfig::Next, start_error);
                lemma_failure_stays(events, i, SwapConfig::Next, start_error);
                assert(run.start_failed(events, i, SwapConfig::Next, start_error));
                if let SwapEvent::Started(Err(f)) = last {
                    assert(run.start_failed(events, n, SwapConfig::Previous, f));
                    assert(run.both_failed(events, start_error, f));
                    assert(now.state->outcome == Err::<(), _>(lost_message(start_error, f)));
                }
            },
            SwapState::Finished { outcome, config, running } => {
                if !running {
                    let (e, f) = choose|e: Seq<char>, f: Seq<char>| #[trigger]
                        run.both_failed(rest, e, f) && outcome == Err::<(), _>(lost_message(e, f));
                    let (i, j) = choose|i: int, j: int|
                        i < j && #[trigger] run.start_failed(rest, i, SwapConfig::Next, e)
                            && #[trigger] run.start_failed(rest, j, SwapConfig::Previous, f);
                    lemma_failure_stays(events, i, SwapConfig::Next, e);
                    lemma_failure_stays(events, j, SwapConfig::Previous, f);
                    assert(run.start_failed(events, i, SwapConfig::Next, e));
                    assert(run.start_failed(events, j, SwapConfig::Previous, f));
                    assert(run.both_failed(events, e, f));
                }
            },
            _ => {},
        }
    }
}

/// A replacement leaves no runtime behind if and only if both starts failed, and then says why each
/// of them did.
pub proof fn law_runtime_is_lost_exactly_where_both_starts_failed(
    events: Seq<SwapEvent<Seq<char>>>,
    outcome: Result<(), Seq<char>>,
    running: bool,
)
    requires
        SwapRun::started().ended(events, outcome, running),
    ensures
        ({
            let run = SwapRun::started();
            &&& !running <==> exists|e: Seq<char>, f: Seq<char>| run.both_failed(events, e, f)
            &&& !running ==> exists|e: Seq<char>, f: Seq<char>| #[trigger]
                run.both_failed(events, e, f) && outcome == Err::<(), _>(lost_message(e, f))
        }),
{
    let run = SwapRun::started();
    lemma_failed_starts(events);
    if exists|e: Seq<char>, f: Seq<char>| run.both_failed(events, e, f) {
        let (e, f) = choose|e: Seq<char>, f: Seq<char>| run.both_failed(events, e, f);
        let (i, j) = choose|i: int, j: int|
            i < j && #[trigger] run.start_failed(events, i, SwapConfig::Next, e)
                && #[trigger] run.start_failed(events, j, SwapConfig::Previous, f);
        assert(run.start_failed(events, j, SwapConfig::Previous, f));
    }
}

/// The replacement of a runtime, from its first action to its last, for whatever the starts come
/// to: the runtime is dropped, the next one is started, and where that fails the previous one is
/// started again. The configuration that was to take over is current at the end where the next
/// runtime started and nowhere else, and what is said names every start that failed.
pub proof fn law_replacement_goes_its_way(e: Seq<char>, f: Seq<char>)
    ensures
        ({
            let first = SwapRun::started();
            let second = first.after(SwapEvent::Dropped);
            let third = second.after(SwapEvent::Started(Err(e)));
            &&& first.asks() is DropRuntime
            &&& second.asks() == SwapAction::<Seq<char>>::Start(SwapConfig::Next)
            &&& second.after(SwapEvent::Started(Ok(()))).asks() == SwapAction::<
                Seq<char>,
            >::Return { outcome: Ok(()), config: SwapConfig::Next, running: true }
            &&& third.asks() == SwapAction::<Seq<char>>::Start(SwapConfig::Previous)
            &&& third.after(SwapEvent::Started(Ok(()))).asks() == SwapAction::Return {
                outcome: Err(e + "\nrestore: restored previous resident runtime"@),
                config: SwapConfig::Previous,
                running: true,
            }
            &&& third.after(SwapEvent::Started(Err(f))).asks() == SwapAction::Return {
                outcome: Err(
                    e + "\nrestore failed while restoring previous resident runtime: "@ + f,
                ),
                config: SwapConfig::Previous,
                running: false,
            }
        }),
{
}

/// What does not answer the question of a replacement changes nothing, and neither does anything
/// that it is told once it is over.
pub proof fn law_replacement_hears_only_answers(
    run: SwapRun<Seq<char>>,
    event: SwapEvent<Seq<char>>,
)
    ensures
        !(run.asks() is DropRuntime && event is Dropped || run.asks() is Start && event is Started)
            ==> run.after(event) == run,
{
}

/// What a replacement leaves behind is the runtime that started last and the configuration that it
/// was started with; where none started, there is none, and the configuration is the one from
/// before. What is said names every start that failed.
pub proof fn law_replacement_leaves_what_started<R, C>(
    before: ResidentServiceState<R, C>,
    next_config: C,
    first: Result<R, String>,
    second: Result<R, String>,
    after: ResidentServiceState<R, C>,
    outcome: Result<(), String>,
)
    requires
        swap_left(before, next_config, first, second, after, outcome),
    ensures
        outcome is Ok <==> first is Ok,
        first matches Ok(r) ==> after.runtime == Some(r) && after.config == next_config,
        first is Err ==> after.config == before.config,
        first is Err && second is Ok ==> after.runtime == Some(second->Ok_0) && outcome->Err_0@
            == first->Err_0@ + "\nrestore: restored previous resident runtime"@,
        first is Err && second is Err ==> after.runtime is None && outcome->Err_0@
            == first->Err_0@ + "\nrestore failed while restoring previous resident runtime: "@
            + second->Err_0@,
{
}

/// A configuration is rejected in these words, and where the reason is known it stands behind them.
pub proof fn law_rejection_has_its_words(error: Seq<char>)
    ensures
        rejection() == "resident reload rejected before current runtime swap"@,
        rejection_because(error) == rejection() + ": "@ + error,
{
    reveal_strlit("resident reload rejected before current runtime swap: ");
    reveal_strlit("resident reload rejected before current runtime swap");
    reveal_strlit(": ");
    assert("resident reload rejected before current runtime swap: "@
        =~= "resident reload rejected before current runtime swap"@ + ": "@);
}

/// What an action is shown to ask for is what it asks for, with everything that it holds.
pub proof fn law_action_is_shown_as_it_is(action: SwapAction<String>)
    ensures
        match action {
            SwapAction::DropRuntime => action@ == SwapAction::<Seq<char>>::DropRuntime,
            SwapAction::Start(config) => action@ == SwapAction::<Seq<char>>::Start(config),
            SwapAction::Return { outcome, config, running } => action@
                == (SwapAction::<Seq<char>>::Return {
                    outcome: views::done_view(outcome),
                    config,
                    running,
                }),
        },
{
}

/// What an event is shown to tell is what it tells, with everything that it holds.
pub proof fn law_event_is_shown_as_it_is(event: SwapEvent<String>)
    ensures
        match event {
            SwapEvent::Dropped => event@ == SwapEvent::<Seq<char>>::Dropped,
            SwapEvent::Started(r) => event@ == SwapEvent::<Seq<char>>::Started(views::done_view(r)),
        },
{
}

} // verus!
