//! The levels of events, and which of them are logged.

use crate::events::CoreEvent;
use crate::text::{self, text_contains, text_ends_with, text_eq, to_ascii_lower};
use vstd::prelude::*;

verus! {

/// How talkative a level is. What is no level counts as `info`.
pub open spec fn level_rank(level: Seq<char>) -> nat {
    if level == "error"@ {
        0
    } else if level == "warn"@ {
        1
    } else if level == "info"@ {
        2
    } else if level == "debug"@ {
        3
    } else if level == "trace"@ {
        4
    } else {
        2
    }
}

/// How talkative a level is.
fn rank_of(level: &str) -> (rank: u8)
    ensures
        rank == level_rank(level@),
{
    if text_eq(level, "error") {
        0
    } else if text_eq(level, "warn") {
        1
    } else if text_eq(level, "info") {
        2
    } else if text_eq(level, "debug") {
        3
    } else if text_eq(level, "trace") {
        4
    } else {
        2
    }
}

/// An event of the level `event_level` is logged where the level `configured` is set.
pub open spec fn level_enabled(configured: Seq<char>, event_level: Seq<char>) -> bool {
    level_rank(event_level) <= level_rank(configured)
}

/// Whether an event of the level `event_level` is logged where the level `configured` is set.
pub fn resident_core_log_level_enabled(configured: &str, event_level: &str) -> (enabled: bool)
    ensures
        enabled == level_enabled(configured@, event_level@),
{
    rank_of(event_level) <= rank_of(configured)
}

/// `name` tells of a connection, of a session, or of a failure.
pub open spec fn is_telling(name: Seq<char>) -> bool {
    ||| text::has_part(name, "route_chosen"@)
    ||| text::has_part(name, "path_chosen"@)
    ||| text::has_part(name, "session_started"@)
    ||| text::has_part(name, "session_stopped"@)
    ||| text::ends_in(name, "_failed"@)
}

/// The level of an event that says nothing of it, by its name.
pub open spec fn named_level(name: Seq<char>) -> Seq<char> {
    if is_telling(name) {
        "info"@
    } else {
        "debug"@
    }
}

/// The level of an event that says nothing of it, by its name.
pub fn resident_core_event_level(name: &str) -> (level: &'static str)
    ensures
        level@ == named_level(name@),
{
    if text_contains(name, "route_chosen") || text_contains(name, "path_chosen") || text_contains(
        name,
        "session_started",
    ) || text_contains(name, "session_stopped") || text_ends_with(name, "_failed") {
        "info"
    } else {
        "debug"
    }
}

/// The level of an event: the one that it declares, in any case, or the one that its name gives it.
pub open spec fn event_level(event: CoreEvent<Seq<char>>) -> Seq<char> {
    let declared = text::ascii_lowered(event.declared_level);
    if declared == "error"@ {
        "error"@
    } else if declared == "warn"@ || declared == "warning"@ {
        "warn"@
    } else if declared == "info"@ {
        "info"@
    } else if declared == "debug"@ {
        "debug"@
    } else if declared == "trace"@ {
        "trace"@
    } else {
        named_level(event.event)
    }
}

/// The level of an event.
pub fn resident_core_event_level_of(event: &CoreEvent<String>) -> (level: &'static str)
    ensures
        level@ == event_level(event@),
{
    let declared = to_ascii_lower(event.declared_level.as_str());
    let d = declared.as_str();
    if text_eq(d, "error") {
        "error"
    } else if text_eq(d, "warn") || text_eq(d, "warning") {
        "warn"
    } else if text_eq(d, "info") {
        "info"
    } else if text_eq(d, "debug") {
        "debug"
    } else if text_eq(d, "trace") {
        "trace"
    } else {
        resident_core_event_level(event.event.as_str())
    }
}

/// `level` is one of the five levels.
pub open spec fn is_level(level: Seq<char>) -> bool {
    ||| level == "error"@
    ||| level == "warn"@
    ||| level == "info"@
    ||| level == "debug"@
    ||| level == "trace"@
}

/// The levels stand in order, and each has a rank of its own.
pub proof fn law_levels_are_ordered()
    ensures
        level_rank("error"@) == 0,
        level_rank("warn"@) == 1,
        level_rank("info"@) == 2,
        level_rank("debug"@) == 3,
        level_rank("trace"@) == 4,
{
    reveal_strlit("error");
    reveal_strlit("warn");
    reveal_strlit("info");
    reveal_strlit("debug");
    reveal_strlit("trace");
    assert("warn"@.len() == 4 && "info"@.len() == 4);
    assert("error"@.len() == 5 && "debug"@.len() == 5 && "trace"@.len() == 5);
    assert("warn"@[0] == 'w' && "info"@[0] == 'i');
    assert("error"@[0] == 'e' && "debug"@[0] == 'd' && "trace"@[0] == 't');
}

/// Every event has one of the five levels.
pub proof fn law_every_event_has_a_level(event: CoreEvent<Seq<char>>)
    ensures
        is_level(event_level(event)),
{
}

/// A more talkative setting loses nothing: what is logged at one setting is logged at every
/// setting that ranks as high or higher.
pub proof fn law_more_talkative_loses_nothing(
    configured: Seq<char>,
    more: Seq<char>,
    event_level: Seq<char>,
)
    requires
        level_rank(configured) <= level_rank(more),
        level_enabled(configured, event_level),
    ensures
        level_enabled(more, event_level),
{
}

/// Errors are logged at every setting, everything is logged at the most talkative one, and a
/// setting that is no level logs what `info` does.
pub proof fn law_ends_of_the_scale(setting: Seq<char>, level: Seq<char>)
    ensures
        level_enabled(setting, "error"@),
        level_enabled("trace"@, level),
        !is_level(setting) ==> level_enabled(setting, level) == level_enabled("info"@, level),
{
    law_levels_are_ordered();
}

/// What an event declares settles its level, in capitals or not, whatever it is called and whatever
/// else it holds; `warning` is another word for `warn`.
pub proof fn law_declared_level_settles(event: CoreEvent<Seq<char>>)
    ensures
        text::ascii_lowered(event.declared_level) == "error"@ ==> event_level(event) == "error"@,
        text::ascii_lowered(event.declared_level) == "warn"@ ==> event_level(event) == "warn"@,
        text::ascii_lowered(event.declared_level) == "warning"@ ==> event_level(event) == "warn"@,
        text::ascii_lowered(event.declared_level) == "info"@ ==> event_level(event) == "info"@,
        text::ascii_lowered(event.declared_level) == "debug"@ ==> event_level(event) == "debug"@,
        text::ascii_lowered(event.declared_level) == "trace"@ ==> event_level(event) == "trace"@,
{
    reveal_strlit("error");
    reveal_strlit("warn");
    reveal_strlit("warning");
    reveal_strlit("info");
    reveal_strlit("debug");
    reveal_strlit("trace");
    assert("warn"@.len() == 4 && "info"@.len() == 4 && "warning"@.len() == 7);
    assert("error"@.len() == 5 && "debug"@.len() == 5 && "trace"@.len() == 5);
    assert("warn"@[0] == 'w' && "info"@[0] == 'i');
    assert("error"@[0] == 'e' && "debug"@[0] == 'd' && "trace"@[0] == 't');
}

/// `declared`, in lower case, is a word for a level.
pub open spec fn is_level_word(declared: Seq<char>) -> bool {
    is_level(text::ascii_lowered(declared)) || text::ascii_lowered(declared) == "warning"@
}

/// Two events that declare the same level have the same level, whatever else they hold.
pub proof fn law_same_declared_level_is_the_same_level(
    one: CoreEvent<Seq<char>>,
    other: CoreEvent<Seq<char>>,
)
    requires
        is_level_word(one.declared_level),
        text::ascii_lowered(one.declared_level) == text::ascii_lowered(other.declared_level),
    ensures
        event_level(one) == event_level(other),
{
    law_declared_level_settles(one);
    law_declared_level_settles(other);
}

/// `name` is something, `part`, and something.
pub open spec fn holds(name: Seq<char>, part: Seq<char>) -> bool {
    exists|front: Seq<char>, back: Seq<char>| name == #[trigger] (front + part + back)
}

/// Where an event declares none of the levels, its name decides, and nothing else: a name that
/// holds a choice of route or path, or the start or stop of a session, or that ends as a failure,
/// makes it `info`, and every other name makes it `debug`.
pub proof fn law_name_decides_where_nothing_is_declared(event: CoreEvent<Seq<char>>)
    requires
        !is_level_word(event.declared_level),
    ensures
        holds(event.event, "route_chosen"@) || holds(event.event, "path_chosen"@) || holds(
            event.event,
            "session_started"@,
        ) || holds(event.event, "session_stopped"@) || (exists|front: Seq<char>|
            event.event == #[trigger] (front + "_failed"@)) ==> event_level(event) == "info"@
            && named_level(event.event) == "info"@,
        !holds(event.event, "route_chosen"@) && !holds(event.event, "path_chosen"@) && !holds(
            event.event,
            "session_started"@,
        ) && !holds(event.event, "session_stopped"@) && !(exists|front: Seq<char>|
            event.event == #[trigger] (front + "_failed"@)) ==> event_level(event) == "debug"@
            && named_level(event.event) == "debug"@,
{
    text::law_part_stands_between(event.event, "route_chosen"@);
    text::law_part_stands_between(event.event, "path_chosen"@);
    text::law_part_stands_between(event.event, "session_started"@);
    text::law_part_stands_between(event.event, "session_stopped"@);
    text::law_end_stands_last(event.event, "_failed"@);
}

/// Of the five levels, from the gravest on, a setting logs itself and those before it, and no
/// other; what is no level counts as the one in the middle, as a setting and as the level of an
/// event.
pub proof fn law_setting_logs_itself_and_what_is_graver(
    levels: Seq<Seq<char>>,
    i: int,
    j: int,
    other: Seq<char>,
)
    requires
        levels == seq!["error"@, "warn"@, "info"@, "debug"@, "trace"@],
        0 <= i < 5,
        0 <= j < 5,
        !levels.contains(other),
    ensures
        level_enabled(levels[i], levels[j]) <==> j <= i,
        level_enabled(other, levels[j]) <==> j <= 2,
        level_enabled(levels[i], other) <==> 2 <= i,
        level_enabled(other, other),
{
    law_levels_are_ordered();
    assert(levels[0] == "error"@ && levels[1] == "warn"@ && levels[2] == "info"@ && levels[3]
        == "debug"@ && levels[4] == "trace"@);
    assert(level_rank(other) == 2);
}

} // verus!
