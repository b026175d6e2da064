//! Which events are logged, and how.

use crate::events::{self, CoreEvent, event_json};
use crate::levels::{self, resident_core_event_level_of, resident_core_log_level_enabled};
use crate::logfmt::{self, LocalTime, render_core_event_logfmt};
use crate::text::{self, text_eq, to_ascii_lower, trim};
use crate::views::{self, copy_bytes, join2};
use vstd::prelude::*;
use vstd::slice::*;

verus! {

/// How many entries the log of events is to hold at most.
pub const EVENT_LOG_MAX_ENTRIES: u64 = 10_000;

/// How many bytes the log of events is to hold at most.
pub const EVENT_LOG_MAX_BYTES: u64 = 52_428_800;

/// Where and how events are logged. Texts are `T` and paths are `B`.
#[derive(Debug)]
pub struct EventLog<T, B> {
    /// The file that lines are appended to.
    pub path: B,
    /// The level that is set.
    pub level: T,
    /// The style that is set: `json`, or anything else for fields.
    pub style: T,
}

/// What is to become of an event. Texts are `T`.
#[derive(Debug)]
pub struct EventLogDecision<T> {
    /// It is to be kept.
    pub persist: bool,
    /// Its level.
    pub level: Option<T>,
    /// How many entries are to be kept at most.
    pub max_entries: u64,
    /// How many bytes are to be kept at most.
    pub max_bytes: u64,
}

impl View for EventLog<String, Vec<u8>> {
    type V = EventLog<Seq<char>, Seq<u8>>;

    open spec fn view(&self) -> EventLog<Seq<char>, Seq<u8>> {
        EventLog { path: self.path@, level: self.level@, style: self.style@ }
    }
}

impl View for EventLogDecision<String> {
    type V = EventLogDecision<Seq<char>>;

    open spec fn view(&self) -> EventLogDecision<Seq<char>> {
        EventLogDecision {
            persist: self.persist,
            level: views::maybe_view(self.level),
            max_entries: self.max_entries,
            max_bytes: self.max_bytes,
        }
    }
}

/// The level that `setting` sets: without the white space around it and in lower case, and `info`
/// where there is nothing.
pub open spec fn level_set(setting: Option<Seq<char>>) -> Seq<char> {
    match setting {
        Some(text) => if text::trimmed(text).len() == 0 {
            "info"@
        } else {
            text::ascii_lowered(text::trimmed(text))
        },
        None => "info"@,
    }
}

/// The style that `setting` sets, as it is, and `logfmt` where there is none.
pub open spec fn style_set(setting: Option<Seq<char>>) -> Seq<char> {
    match setting {
        Some(text) => text,
        None => "logfmt"@,
    }
}

/// Where and how events are logged, given the log file and the settings of the level and of the
/// style, where there are any: nowhere without a log file.
pub fn install_core_event_log_sink(
    logfile: Option<&[u8]>,
    level: Option<&str>,
    style: Option<&str>,
) -> (log: Option<EventLog<String, Vec<u8>>>)
    ensures
        match (log, logfile) {
            (Some(l), Some(path)) => l@ == (EventLog {
                path: path@,
                level: level_set(views::maybe_str_view(level)),
                style: style_set(views::maybe_str_view(style)),
            }),
            (None, None) => true,
            _ => false,
        },
{
    let path = match logfile {
        Some(path) => slice_to_vec(path),
        None => return None,
    };
    let level_text = match level {
        Some(text) => {
            let inner = trim(text);
            if inner.as_str().is_empty() {
                "info".to_owned()
            } else {
                to_ascii_lower(inner.as_str())
            }
        },
        None => "info".to_owned(),
    };
    let style_text = match style {
        Some(text) => text.to_owned(),
        None => "logfmt".to_owned(),
    };
    Some(EventLog { path, level: level_text, style: style_text })
}

/// An event is logged where `level` is set.
pub open spec fn is_logged(level: Seq<char>, event: CoreEvent<Seq<char>>) -> bool {
    levels::level_enabled(level, levels::event_level(event))
}

/// What is to become of an event where `level` is set.
pub open spec fn decision_on(level: Seq<char>, event: CoreEvent<Seq<char>>) -> EventLogDecision<
    Seq<char>,
> {
    EventLogDecision {
        persist: is_logged(level, event),
        level: Some(levels::event_level(event)),
        max_entries: EVENT_LOG_MAX_ENTRIES,
        max_bytes: EVENT_LOG_MAX_BYTES,
    }
}

/// What is to become of an event where `level` is set.
pub fn event_log_decision(level: &str, event: &CoreEvent<String>) -> (decision: EventLogDecision<
    String,
>)
    ensures
        decision@ == decision_on(level@, event@),
{
    let own = resident_core_event_level_of(event);
    EventLogDecision {
        persist: resident_core_log_level_enabled(level, own),
        level: Some(own.to_owned()),
        max_entries: EVENT_LOG_MAX_ENTRIES,
        max_bytes: EVENT_LOG_MAX_BYTES,
    }
}

/// The line of an event in the style `style`, with the line feed at its end: its JSON text in the
/// style `json`, and its fields in any other. Where the event has a time, it is `local` on the
/// calendar of the machine.
pub open spec fn event_line(
    style: Seq<char>,
    event: CoreEvent<Seq<char>>,
    json: Seq<char>,
    local: LocalTime,
) -> Seq<char> {
    if style == "json"@ {
        json + "\n"@
    } else {
        logfmt::line_of(
            logfmt::event_fields(event, event.event, levels::event_level(event), local),
        ) + "\n"@
    }
}

/// `entry` is one line: it ends in a line feed, and holds no other.
pub open spec fn is_entry(entry: Seq<char>) -> bool {
    &&& entry.len() > 0
    &&& entry.last() == '\n'
    &&& !entry.drop_last().contains('\n')
}

/// A text without a line feed, and one behind it, are one line.
proof fn lemma_entry(line: Seq<char>)
    requires
        !line.contains('\n'),
    ensures
        is_entry(line + "\n"@),
{
    reveal_strlit("\n");
    assert((line + "\n"@).drop_last() =~= line);
}

/// The line of an event, where it is logged. `json` is the JSON text of the event, and `local` its
/// time on the calendar of the machine, where it has one. It is one line, as long as the JSON text
/// is.
pub fn event_log_line(
    log: &EventLog<String, Vec<u8>>,
    event: &CoreEvent<String>,
    json: &str,
    local: LocalTime,
) -> (line: Option<String>)
    requires
        event.timestamp is Some ==> local.in_range(),
    ensures
        match line {
            Some(l) => is_logged(log@.level, event@) && l@ == event_line(
                log@.style,
                event@,
                json@,
                local,
            ),
            None => !is_logged(log@.level, event@),
        },
        line matches Some(l) ==> log@.style != "json"@ || !json@.contains('\n') ==> is_entry(l@),
{
    let level = resident_core_event_level_of(event);
    if !resident_core_log_level_enabled(log.level.as_str(), level) {
        return None;
    }
    if text_eq(log.style.as_str(), "json") {
        proof {
            if !json@.contains('\n') {
                lemma_entry(json@);
            }
        }
        Some(join2(json, "\n"))
    } else {
        let line = render_core_event_logfmt(event, event.event.as_str(), level, local);
        proof {
            lemma_entry(line@);
        }
        Some(join2(line.as_str(), "\n"))
    }
}

/// The decision on the event that `value` tells of, where `level` is set.
pub fn decide_core_event(level: &str, value: &serde_json::Value) -> (decision: EventLogDecision<
    String,
>)
    ensures
        decision@ == decision_on(level@, events::event_of(*value)),
{
    event_log_decision(level, &CoreEvent::from_json(value))
}

/// The line of the event that `value` tells of, where it is logged: one line, in any style. `local`
/// is its time on the calendar of the machine, where it has one.
pub fn log_core_event(
    log: &EventLog<String, Vec<u8>>,
    value: &serde_json::Value,
    local: LocalTime,
) -> (line: Option<String>)
    requires
        local.in_range(),
    ensures
        match line {
            Some(l) => is_logged(log@.level, events::event_of(*value)) && l@ == event_line(
                log@.style,
                events::event_of(*value),
                events::json_text(*value),
                local,
            ),
            None => !is_logged(log@.level, events::event_of(*value)),
        },
        line matches Some(l) ==> is_entry(l@),
{
    let event = CoreEvent::from_json(value);
    if text_eq(log.style.as_str(), "json") {
        event_log_line(log, &event, event_json(value).as_str(), local)
    } else {
        event_log_line(log, &event, "", local)
    }
}

/// Whether the event that `value` tells of is logged with its time, so that the calendar of the
/// machine has to be asked for it.
pub fn shows_time(log: &EventLog<String, Vec<u8>>, value: &serde_json::Value) -> (shows: bool)
    ensures
        shows == (is_logged(log@.level, events::event_of(*value)) && log@.style != "json"@
            && events::timestamp_of(*value) is Some),
{
    let event = CoreEvent::from_json(value);
    let level = resident_core_event_level_of(&event);
    resident_core_log_level_enabled(log.level.as_str(), level) && !text_eq(
        log.style.as_str(),
        "json",
    ) && event.timestamp.is_some()
}

/// A level holds neither a space nor a quotation mark, and breaks no line.
proof fn lemma_levels_are_plain(level: Seq<char>)
    requires
        levels::is_level(level),
    ensures
        logfmt::is_plain(level),
{
    reveal_strlit("error");
    reveal_strlit("warn");
    reveal_strlit("info");
    reveal_strlit("debug");
    reveal_strlit("trace");
}

/// What one who reads the log finds of an event that is logged as fields: one line, in which the
/// time, the level, the name, the message, the way out and the dialer come first, and in which
/// nothing in any value leads astray, as long as the name of the event holds neither a space nor a
/// quotation mark and breaks no line.
pub proof fn law_logged_event_is_read_back(event: CoreEvent<Seq<char>>, local: LocalTime)
    requires
        logfmt::is_plain(event.event),
    ensures
        ({
            let name = event.event;
            let fields = logfmt::event_fields(event, name, levels::event_level(event), local);
            let read = logfmt::fields_read(logfmt::line_of(fields));
            &&& text::is_flat(logfmt::line_of(fields))
            &&& read == logfmt::pairs(fields)
            &&& read.len() >= 6
            &&& read[0] == ("time"@, logfmt::shown_time(event, local))
            &&& read[1] == ("level"@, levels::event_level(event))
            &&& read[2] == ("event"@, name)
            &&& read[3] == ("msg"@, logfmt::clean(logfmt::message_of(event, name)))
            &&& read[4] == ("outbound"@, logfmt::clean(logfmt::or_dash(event.outbound)))
            &&& read[5] == ("dialer"@, logfmt::clean(logfmt::or_dash(event.dialer)))
        }),
{
    let level = levels::event_level(event);
    levels::law_every_event_has_a_level(event);
    lemma_levels_are_plain(level);
    logfmt::law_line_is_one_line(event, event.event, level, local);
    logfmt::law_line_is_read_back(event, event.event, level, local);
}

/// A setting of the level in other letters, or with white space before or behind it, sets the same
/// level.
pub proof fn law_level_setting_is_forgiving(setting: Seq<char>, white: char)
    requires
        text::is_white(white),
    ensures
        level_set(Some(text::ascii_lowered(setting))) == level_set(Some(setting)),
        level_set(Some(seq![white] + setting)) == level_set(Some(setting)),
        level_set(Some(setting.push(white))) == level_set(Some(setting)),
{
    text::lemma_lowering(setting);
    text::lemma_lowering(text::trimmed(setting));
    text::lemma_trimming(setting, white);
}

/// Where an event stands on its way to the log.
#[derive(Debug)]
pub enum SinkState {
    /// The log is being opened.
    Opening,
    /// The line is being appended.
    Appending,
    /// The event is dealt with; the log is open, or not.
    Finished { open: bool },
}

/// An event on its way to the log. Texts are `T` and paths are `B`.
#[derive(Debug)]
pub struct SinkRun<T, B> {
    /// The file that the line is appended to.
    pub path: B,
    /// The line, where the event is logged.
    pub line: Option<T>,
    /// Where the event stands.
    pub state: SinkState,
}

/// What an event on its way to the log asks for. Texts are `T` and paths are `B`.
#[derive(Debug)]
pub enum SinkAction<T, B> {
    /// Open this file to append to it, and make it where there is none.
    Open(B),
    /// Append this to the open file.
    Append(T),
    /// The event is dealt with; the log is open, or not.
    Return { open: bool },
}

impl View for SinkRun<String, Vec<u8>> {
    type V = SinkRun<Seq<char>, Seq<u8>>;

    open spec fn view(&self) -> SinkRun<Seq<char>, Seq<u8>> {
        SinkRun { path: self.path@, line: views::maybe_view(self.line), state: self.state }
    }
}

impl View for SinkAction<String, Vec<u8>> {
    type V = SinkAction<Seq<char>, Seq<u8>>;

    open spec fn view(&self) -> SinkAction<Seq<char>, Seq<u8>> {
        match self {
            SinkAction::Open(path) => SinkAction::Open(path@),
            SinkAction::Append(line) => SinkAction::Append(line@),
            SinkAction::Return { open } => SinkAction::Return { open: *open },
        }
    }
}

/// The line of an event, where it is logged.
pub open spec fn logged_line(
    log: EventLog<Seq<char>, Seq<u8>>,
    event: CoreEvent<Seq<char>>,
    json: Seq<char>,
    local: LocalTime,
) -> Option<Seq<char>> {
    if is_logged(log.level, event) {
        Some(event_line(log.style, event, json, local))
    } else {
        None
    }
}

impl SinkRun<Seq<char>, Seq<u8>> {
    /// An event whose line is `line` where it is logged, and that has just come in.
    pub open spec fn started(path: Seq<u8>, open: bool, line: Option<Seq<char>>) -> Self {
        let run = SinkRun { path, line, state: SinkState::Opening };
        if open {
            run.opened()
        } else {
            run
        }
    }

    /// The event once the log is open.
    pub open spec fn opened(self) -> Self {
        SinkRun {
            state: if self.line is Some {
                SinkState::Appending
            } else {
                SinkState::Finished { open: true }
            },
            ..self
        }
    }

    /// What the event asks for.
    pub open spec fn asks(self) -> SinkAction<Seq<char>, Seq<u8>> {
        match self.state {
            SinkState::Opening => SinkAction::Open(self.path),
            SinkState::Appending => SinkAction::Append(
                match self.line {
                    Some(line) => line,
                    None => seq![],
                },
            ),
            SinkState::Finished { open } => SinkAction::Return { open },
        }
    }

    /// The event after its action succeeded or failed. One that cannot be written is lost, and a
    /// log that cannot be opened stays closed.
    pub open spec fn after(self, success: bool) -> Self {
        match self.state {
            SinkState::Opening => if success {
                self.opened()
            } else {
                SinkRun { state: SinkState::Finished { open: false }, ..self }
            },
            SinkState::Appending => SinkRun { state: SinkState::Finished { open: true }, ..self },
            SinkState::Finished { open } => self,
        }
    }
}

/// Takes in the event that `value` tells of. The log is open, or not; `local` is the time of the
/// event on the calendar of the machine, where it has one.
pub fn sink_core_event(
    log: &EventLog<String, Vec<u8>>,
    open: bool,
    value: &serde_json::Value,
    local: LocalTime,
) -> (run: SinkRun<String, Vec<u8>>)
    requires
        local.in_range(),
    ensures
        run@ == SinkRun::started(
            log@.path,
            open,
            logged_line(log@, events::event_of(*value), events::json_text(*value), local),
        ),
        run.line matches Some(l) ==> is_entry(l@),
{
    let line = log_core_event(log, value, local);
    let state = if !open {
        SinkState::Opening
    } else if line.is_some() {
        SinkState::Appending
    } else {
        SinkState::Finished { open: true }
    };
    SinkRun { path: copy_bytes(&log.path), line, state }
}

impl SinkRun<String, Vec<u8>> {
    /// What the event asks for.
    pub fn action(&self) -> (action: SinkAction<String, Vec<u8>>)
        ensures
            action@ == self@.asks(),
    {
        match &self.state {
            SinkState::Opening => SinkAction::Open(copy_bytes(&self.path)),
            SinkState::Appending => SinkAction::Append(
                match &self.line {
                    Some(line) => line.clone(),
                    None => String::new(),
                },
            ),
            SinkState::Finished { open } => SinkAction::Return { open: *open },
        }
    }

    /// Tells the event whether its action succeeded.
    pub fn tell(self, success: bool) -> (run: Self)
        ensures
            run@ == self@.after(success),
    {
        let state = match self.state {
            SinkState::Opening => {
                if !success {
                    SinkState::Finished { open: false }
                } else if self.line.is_some() {
                    SinkState::Appending
                } else {
                    SinkState::Finished { open: true }
                }
            },
            SinkState::Appending => SinkState::Finished { open: true },
            SinkState::Finished { open } => SinkState::Finished { open },
        };
        SinkRun { path: self.path, line: self.line, state }
    }
}

/// The calendar of the machine is asked in vain where no time is shown: the line is the same
/// whatever it says.
pub proof fn law_time_matters_only_where_it_is_shown(
    log: EventLog<Seq<char>, Seq<u8>>,
    event: CoreEvent<Seq<char>>,
    json: Seq<char>,
    one: LocalTime,
    other: LocalTime,
)
    requires
        !is_logged(log.level, event) || log.style == "json"@ || event.timestamp is None,
    ensures
        logged_line(log, event, json, one) == logged_line(log, event, json, other),
{
}

/// Once the log is open, it stays so, and exactly the events that are to be kept are appended to
/// it; until then, every event tries to open it.
pub proof fn law_kept_events_are_appended(
    log: EventLog<Seq<char>, Seq<u8>>,
    event: CoreEvent<Seq<char>>,
    json: Seq<char>,
    local: LocalTime,
    success: bool,
)
    ensures
        ({
            let line = event_line(log.style, event, json, local);
            let kept = decision_on(log.level, event).persist;
            let told = logged_line(log, event, json, local);
            let start = SinkRun::started(log.path, true, told);
            let closed = SinkRun::started(log.path, false, told);
            &&& closed.asks() == SinkAction::<Seq<char>, Seq<u8>>::Open(log.path)
            &&& closed.after(true) == start
            &&& closed.after(false).asks() == (SinkAction::<Seq<char>, Seq<u8>>::Return {
                open: false,
            })
            &&& kept ==> start.asks() == SinkAction::<Seq<char>, Seq<u8>>::Append(line)
            &&& kept ==> start.after(success).asks() == (SinkAction::<Seq<char>, Seq<u8>>::Return {
                open: true,
            })
            &&& !kept ==> start.asks() == (SinkAction::<Seq<char>, Seq<u8>>::Return { open: true })
        }),
{
}

/// Where no level is set, or nothing but white space, it is `info`; any other setting sets what it
/// holds between the white space around it, in lower case. A style is set as it is, and is `logfmt`
/// where none is.
pub proof fn law_settings_are_taken(
    front: Seq<char>,
    core: Seq<char>,
    back: Seq<char>,
    style: Seq<char>,
)
    requires
        text::all_white(front),
        text::all_white(back),
        text::is_bare(core),
    ensures
        level_set(None) == "info"@,
        core.len() == 0 ==> level_set(Some(front + core + back)) == "info"@,
        core.len() > 0 ==> level_set(Some(front + core + back)) == text::ascii_lowered(core),
        style_set(None) == "logfmt"@,
        style_set(Some(style)) == style,
{
    text::law_trimming_finds_the_text(front, core, back);
}

/// What is decided on an event names its level, and the same bounds whatever the event is; it is
/// kept if and only if its level is logged at the level that is set.
pub proof fn law_decision_has_its_bounds(level: Seq<char>, event: CoreEvent<Seq<char>>)
    ensures
        decision_on(level, event).max_entries == 10_000,
        decision_on(level, event).max_bytes == 50 * 1024 * 1024,
        decision_on(level, event).level == Some(levels::event_level(event)),
        decision_on(level, event).persist <==> levels::level_enabled(
            level,
            levels::event_level(event),
        ),
{
}

/// In the style `json` an event is its JSON text, and in every other style its fields under its own
/// name and level, with a line feed behind either. An event that is not logged has no line.
pub proof fn law_style_makes_the_line(
    log: EventLog<Seq<char>, Seq<u8>>,
    event: CoreEvent<Seq<char>>,
    json: Seq<char>,
    local: LocalTime,
)
    ensures
        ({
            let level = levels::event_level(event);
            let line = logged_line(log, event, json, local);
            &&& line is Some <==> levels::level_enabled(log.level, level)
            &&& line is Some && log.style == "json"@ ==> line->0 == json + "\n"@
            &&& line is Some && log.style != "json"@ ==> line->0 == logfmt::line_of(
                logfmt::event_fields(event, event.event, level, local),
            ) + "\n"@
        }),
{
}

/// Events at or above the level that is set are logged, by what they declare: an event that
/// declares a level is logged at every setting that ranks it or a less grave one.
pub proof fn law_declared_level_decides_what_is_logged(
    scale: Seq<Seq<char>>,
    i: int,
    j: int,
    event: CoreEvent<Seq<char>>,
)
    requires
        scale == seq!["error"@, "warn"@, "info"@, "debug"@, "trace"@],
        0 <= i < 5,
        0 <= j < 5,
        text::ascii_lowered(event.declared_level) == scale[j],
    ensures
        is_logged(scale[i], event) <==> j <= i,
        decision_on(scale[i], event).persist <==> j <= i,
        decision_on(scale[i], event).level == Some(scale[j]),
{
    levels::law_declared_level_settles(event);
    levels::law_levels_are_ordered();
    assert(scale[0] == "error"@ && scale[1] == "warn"@ && scale[2] == "info"@ && scale[3]
        == "debug"@ && scale[4] == "trace"@);
}

/// Whatever the line: an event that comes in while the log is closed opens it, and is given up
/// where that fails; once the log is open the line is appended, and there is nothing to do without
/// one. An event that is dealt with stays so.
pub proof fn law_event_is_dealt_with(
    path: Seq<u8>,
    line: Seq<char>,
    success: bool,
    later: bool,
)
    ensures
        ({
            let closed = SinkRun::started(path, false, Some(line));
            let open = SinkRun::started(path, true, Some(line));
            let idle = SinkRun::started(path, false, None);
            let done = SinkAction::<Seq<char>, Seq<u8>>::Return { open: true };
            let given_up = SinkAction::<Seq<char>, Seq<u8>>::Return { open: false };
            &&& closed.asks() == SinkAction::<Seq<char>, _>::Open(path)
            &&& idle.asks() == SinkAction::<Seq<char>, _>::Open(path)
            &&& closed.after(false).asks() == given_up
            &&& idle.after(false).asks() == given_up
            &&& idle.after(true).asks() == done
            &&& closed.after(true).asks() == SinkAction::<_, Seq<u8>>::Append(line)
            &&& open.asks() == SinkAction::<_, Seq<u8>>::Append(line)
            &&& closed.after(true).after(success).asks() == done
            &&& open.after(success).asks() == done
            &&& SinkRun::started(path, true, None).asks() == done
        }),
        forall|run: SinkRun<Seq<char>, Seq<u8>>|
            run.asks() is Return ==> #[trigger] run.after(later) == run,
{
}

/// What an action is shown to ask for is what it asks for, with everything that it holds.
pub proof fn law_action_is_shown_as_it_is(action: SinkAction<String, Vec<u8>>)
    ensures
        match action {
            SinkAction::Open(path) => action@ == SinkAction::<Seq<char>, Seq<u8>>::Open(path@),
            SinkAction::Append(line) => action@ == SinkAction::<Seq<char>, Seq<u8>>::Append(line@),
            SinkAction::Return { open } => action@
                == (SinkAction::<Seq<char>, Seq<u8>>::Return { open }),
        },
{
}

/// A log of events is shown as it is.
pub proof fn law_log_is_shown_as_it_is(log: EventLog<String, Vec<u8>>)
    ensures
        log@.path == log.path@,
        log@.level == log.level@,
        log@.style == log.style@,
{
}

/// What is decided on an event is shown as it is.
pub proof fn law_decision_is_shown_as_it_is(decision: EventLogDecision<String>)
    ensures
        decision@.persist == decision.persist,
        decision@.level == views::maybe_view(decision.level),
        decision@.max_entries == decision.max_entries,
        decision@.max_bytes == decision.max_bytes,
{
}

} // verus!
