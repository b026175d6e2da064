//! One line of the log of events: fields `key=value`, parted by spaces.

use crate::decimal::{self, zero_padded_text};
use crate::events::CoreEvent;
use crate::text::{self, on_one_line, replace_char, text_ends_with, text_eq, text_has_char};
use crate::views::{join2, join3, join4};
use vstd::prelude::*;

verus! {

/// A moment on the calendar of the machine, as the C library counts it.
#[derive(Clone, Copy, Debug, PartialEq, Eq, Structural)]
pub struct LocalTime {
    /// Years since 1900.
    pub year: i32,
    /// Months since January.
    pub month: i32,
    /// Day of the month.
    pub day: i32,
    /// Hours since midnight.
    pub hour: i32,
    /// Minutes past the hour.
    pub minute: i32,
    /// Seconds past the minute.
    pub second: i32,
}

impl LocalTime {
    /// The year and the month can be written in full.
    pub open spec fn in_range(self) -> bool {
        &&& self.year + 1900 <= i32::MAX
        &&& self.month + 1 <= i32::MAX
    }
}

/// A moment as text: date and time, parted by a space.
pub open spec fn time_text(time: LocalTime) -> Seq<char> {
    let year = decimal::zero_padded(time.year + 1900, 4);
    let month = decimal::zero_padded(time.month + 1, 2);
    let day = decimal::zero_padded(time.day as int, 2);
    let hour = decimal::zero_padded(time.hour as int, 2);
    let minute = decimal::zero_padded(time.minute as int, 2);
    let second = decimal::zero_padded(time.second as int, 2);
    year + "-"@ + month + "-"@ + day + " "@ + hour + ":"@ + minute + ":"@ + second
}

/// A moment as text: date and time, parted by a space.
pub fn format_unix_local(time: &LocalTime) -> (text: String)
    requires
        time.in_range(),
    ensures
        text@ == time_text(*time),
{
    let mut text = zero_padded_text(time.year + 1900, 4);
    text.append("-");
    text.append(zero_padded_text(time.month + 1, 2).as_str());
    text.append("-");
    text.append(zero_padded_text(time.day, 2).as_str());
    text.append(" ");
    text.append(zero_padded_text(time.hour, 2).as_str());
    text.append(":");
    text.append(zero_padded_text(time.minute, 2).as_str());
    text.append(":");
    text.append(zero_padded_text(time.second, 2).as_str());
    text
}

/// Where the connection of an event goes: the first of its names that is not empty.
pub open spec fn target_of(event: CoreEvent<Seq<char>>) -> Seq<char> {
    if event.sniffed.len() > 0 {
        event.sniffed
    } else if event.dial_target.len() > 0 {
        event.dial_target
    } else {
        event.original_dst
    }
}

/// By whom a connection goes.
pub open spec fn via(dialer: Seq<char>) -> Seq<char> {
    if dialer.len() == 0 {
        seq![]
    } else {
        " via "@ + dialer
    }
}

/// The way out of a connection, or a question mark.
pub open spec fn outbound_of(event: CoreEvent<Seq<char>>) -> Seq<char> {
    if event.outbound.len() == 0 {
        "?"@
    } else {
        event.outbound
    }
}

/// The event named `name` in words.
pub open spec fn message_of(event: CoreEvent<Seq<char>>, name: Seq<char>) -> Seq<char> {
    if name == "tcp_route_chosen"@ {
        event.network + " "@ + target_of(event) + " -> "@ + outbound_of(event) + via(event.dialer)
    } else if name == "udp_route_chosen"@ {
        "udp "@ + target_of(event) + " -> "@ + outbound_of(event) + via(event.dialer)
    } else if name == "dns_path_chosen"@ || name == "dns_bind_query_finished"@ {
        "dns "@ + event.qname + " -> upstream="@ + event.upstream + via(event.dialer)
    } else if name == "udp_session_started"@ {
        "udp session started "@ + target_of(event) + via(event.dialer)
    } else if name == "udp_session_stopped"@ {
        "udp session stopped "@ + target_of(event)
    } else if name == "resident_health_checker_started"@ {
        "health checker started group="@ + event.group + " policy="@ + event.group_policy
            + " candidates="@ + match event.candidate_count_json {
            Some(count) => count,
            None => "-"@,
        }
    } else if name == "tcp_worker_started"@ {
        "tcp worker started (dial_mode="@ + event.dial_mode + ")"@
    } else if name == "udp_session_manager_started"@ {
        "udp session manager started"@
    } else if name == "resident_health_scheduler_started"@ {
        "health scheduler started"@
    } else if text::ends_in(name, "_failed"@) {
        name + ": "@ + event.error
    } else {
        name
    }
}

/// Where the connection of an event goes.
fn target_text(event: &CoreEvent<String>) -> (target: &str)
    ensures
        target@ == target_of(event@),
{
    if !event.sniffed.as_str().is_empty() {
        event.sniffed.as_str()
    } else if !event.dial_target.as_str().is_empty() {
        event.dial_target.as_str()
    } else {
        event.original_dst.as_str()
    }
}

/// By whom a connection goes.
fn via_text(dialer: &str) -> (text: String)
    ensures
        text@ == via(dialer@),
{
    if dialer.is_empty() {
        String::new()
    } else {
        join2(" via ", dialer)
    }
}

/// The event named `name` in words.
pub fn core_event_message(event: &CoreEvent<String>, name: &str) -> (message: String)
    ensures
        message@ == message_of(event@, name@),
{
    let target = target_text(event);
    let outbound = if event.outbound.as_str().is_empty() {
        "?"
    } else {
        event.outbound.as_str()
    };
    let via = via_text(event.dialer.as_str());
    if text_eq(name, "tcp_route_chosen") {
        let mut message = join4(event.network.as_str(), " ", target, " -> ");
        message.append(outbound);
        message.append(via.as_str());
        message
    } else if text_eq(name, "udp_route_chosen") {
        let mut message = join4("udp ", target, " -> ", outbound);
        message.append(via.as_str());
        message
    } else if text_eq(name, "dns_path_chosen") || text_eq(name, "dns_bind_query_finished") {
        let mut message = join4(
            "dns ",
            event.qname.as_str(),
            " -> upstream=",
            event.upstream.as_str(),
        );
        message.append(via.as_str());
        message
    } else if text_eq(name, "udp_session_started") {
        join3("udp session started ", target, via.as_str())
    } else if text_eq(name, "udp_session_stopped") {
        join2("udp session stopped ", target)
    } else if text_eq(name, "resident_health_checker_started") {
        let mut message = join4(
            "health checker started group=",
            event.group.as_str(),
            " policy=",
            event.group_policy.as_str(),
        );
        message.append(" candidates=");
        match &event.candidate_count_json {
            Some(count) => message.append(count.as_str()),
            None => message.append("-"),
        }
        message
    } else if text_eq(name, "tcp_worker_started") {
        join3("tcp worker started (dial_mode=", event.dial_mode.as_str(), ")")
    } else if text_eq(name, "udp_session_manager_started") {
        "udp session manager started".to_owned()
    } else if text_eq(name, "resident_health_scheduler_started") {
        "health scheduler started".to_owned()
    } else if text_ends_with(name, "_failed") {
        join3(name, ": ", event.error.as_str())
    } else {
        name.to_owned()
    }
}

/// One field of a line.
pub struct Field {
    /// What it tells.
    pub key: Seq<char>,
    /// What it says.
    pub value: Seq<char>,
    /// The value stands in quotation marks.
    pub quoted: bool,
}

/// A field as text.
pub open spec fn field_text(field: Field) -> Seq<char> {
    if field.quoted {
        field.key + "=\""@ + field.value + "\""@
    } else {
        field.key + "="@ + field.value
    }
}

/// The fields as one line.
pub open spec fn line_of(fields: Seq<Field>) -> Seq<char>
    decreases fields.len(),
{
    if fields.len() == 0 {
        seq![]
    } else if fields.len() == 1 {
        field_text(fields[0])
    } else {
        line_of(fields.drop_last()) + " "@ + field_text(fields.last())
    }
}

/// `text` with every quotation mark turned into an apostrophe.
pub open spec fn unquoted(text: Seq<char>) -> Seq<char> {
    text::with_char_replaced(text, '"', '\'')
}

/// `value` has to stand in quotation marks.
pub open spec fn needs_quotes(value: Seq<char>) -> bool {
    value.contains(' ') || value.contains('"')
}

/// `value` as it stands in a field: on one line, and with apostrophes for quotation marks.
pub open spec fn clean(value: Seq<char>) -> Seq<char> {
    unquoted(text::one_lined(value))
}

/// The field `key` with a value that may hold anything.
pub open spec fn field_of(key: Seq<char>, value: Seq<char>) -> Field {
    Field { key, value: clean(value), quoted: needs_quotes(text::one_lined(value)) }
}

/// `value`, or a dash where there is none.
pub open spec fn or_dash(value: Seq<char>) -> Seq<char> {
    if value.len() == 0 {
        "-"@
    } else {
        value
    }
}

/// `fields`, and the field `key` where it says something other than `null`.
pub open spec fn with_detail(fields: Seq<Field>, key: Seq<char>, value: Seq<char>) -> Seq<Field> {
    if value.len() == 0 || value == "null"@ {
        fields
    } else {
        fields.push(field_of(key, value))
    }
}

/// The time of an event, which is `local` on the calendar of the machine, or a dash where the event
/// has none.
pub open spec fn shown_time(event: CoreEvent<Seq<char>>, local: LocalTime) -> Seq<char> {
    match event.timestamp {
        Some(_) => time_text(local),
        None => "-"@,
    }
}

/// The fields that every line has: one who reads the log looks for them.
pub open spec fn head_fields(
    event: CoreEvent<Seq<char>>,
    name: Seq<char>,
    level: Seq<char>,
    local: LocalTime,
) -> Seq<Field> {
    seq![
        Field { key: "time"@, value: shown_time(event, local), quoted: true },
        Field { key: "level"@, value: text::one_lined(level), quoted: false },
        Field { key: "event"@, value: text::one_lined(name), quoted: false },
        Field { key: "msg"@, value: clean(message_of(event, name)), quoted: true },
        field_of("outbound"@, or_dash(event.outbound)),
        field_of("dialer"@, or_dash(event.dialer)),
    ]
}

/// The fields of the line of an event.
pub open spec fn event_fields(
    event: CoreEvent<Seq<char>>,
    name: Seq<char>,
    level: Seq<char>,
    local: LocalTime,
) -> Seq<Field> {
    let f = head_fields(event, name, level, local);
    let f = with_detail(f, "sniffed"@, event.sniffed);
    let f = with_detail(f, "dial_target"@, event.dial_target);
    let f = with_detail(f, "group"@, event.group);
    let f = with_detail(f, "policy"@, event.policy);
    let f = with_detail(f, "pname"@, event.pname);
    let f = with_detail(f, "peer"@, event.peer);
    let f = with_detail(f, "original_dst"@, event.original_dst);
    let f = with_detail(f, "network"@, event.network);
    let f = with_detail(f, "candidate_count"@, event.candidate_count);
    let f = with_detail(f, "error"@, event.error);
    with_detail(f, "sniff_error"@, event.sniff_error)
}

/// A line holds the keys that one who reads the log looks for.
pub open spec fn has_page_keys(line: Seq<char>) -> bool {
    &&& text::has_part(line, "time="@)
    &&& text::has_part(line, "level="@)
    &&& text::has_part(line, "msg="@)
    &&& text::has_part(line, "outbound="@)
    &&& text::has_part(line, "dialer="@)
}

/// Appends a field.
fn push_field_as_is(
    line: String,
    key: &str,
    value: &str,
    quoted: bool,
    Ghost(fields): Ghost<Seq<Field>>,
) -> (longer: String)
    requires
        fields.len() > 0,
        line@ == line_of(fields),
    ensures
        longer@ == line_of(fields.push(Field { key: key@, value: value@, quoted })),
{
    let mut longer = line;
    let ghost field = Field { key: key@, value: value@, quoted };
    assert(fields.push(field).drop_last() =~= fields);
    longer.append(" ");
    longer.append(key);
    if quoted {
        longer.append("=\"");
        longer.append(value);
        longer.append("\"");
    } else {
        longer.append("=");
        longer.append(value);
    }
    assert(longer@ =~= line_of(fields) + " "@ + field_text(field));
    longer
}

/// Appends the field `key` with a value that may hold anything.
fn push_field(line: String, key: &str, value: &str, Ghost(fields): Ghost<Seq<Field>>) -> (longer:
    String)
    requires
        fields.len() > 0,
        line@ == line_of(fields),
    ensures
        longer@ == line_of(fields.push(field_of(key@, value@))),
{
    let flat = on_one_line(value);
    let quoted = text_has_char(flat.as_str(), ' ') || text_has_char(flat.as_str(), '"');
    let plain = replace_char(flat.as_str(), '"', '\'');
    push_field_as_is(line, key, plain.as_str(), quoted, Ghost(fields))
}

/// Appends the field `key` where it says something other than `null`.
fn push_detail(line: String, key: &str, value: &str, Ghost(fields): Ghost<Seq<Field>>) -> (longer:
    String)
    requires
        fields.len() > 0,
        line@ == line_of(fields),
    ensures
        longer@ == line_of(with_detail(fields, key@, value@)),
{
    if value.is_empty() || text_eq(value, "null") {
        return line;
    }
    push_field(line, key, value, Ghost(fields))
}

/// `value`, or a dash where there is none.
fn dash_if_empty(value: &str) -> (shown: &str)
    ensures
        shown@ == or_dash(value@),
{
    if value.is_empty() {
        "-"
    } else {
        value
    }
}

/// The part of a line that every event has.
fn head_line(event: &CoreEvent<String>, name: &str, level: &str, local: LocalTime) -> (line:
    String)
    requires
        event.timestamp is Some ==> local.in_range(),
    ensures
        line@ == line_of(head_fields(event@, name@, level@, local)),
{
    let shown = match event.timestamp {
        Some(_) => format_unix_local(&local),
        None => "-".to_owned(),
    };
    let flat = on_one_line(core_event_message(event, name).as_str());
    let message = replace_char(flat.as_str(), '"', '\'');
    let flat_name = on_one_line(name);
    let flat_level = on_one_line(level);
    let outbound = dash_if_empty(event.outbound.as_str());
    let dialer = dash_if_empty(event.dialer.as_str());
    let ghost fields = head_fields(event@, name@, level@, local);
    let line = join4("time", "=\"", shown.as_str(), "\"");
    assert(line@ == line_of(fields.take(1)));
    let line = push_field_as_is(line, "level", flat_level.as_str(), false, Ghost(fields.take(1)));
    assert(fields.take(1).push(fields[1]) =~= fields.take(2));
    let line = push_field_as_is(line, "event", flat_name.as_str(), false, Ghost(fields.take(2)));
    assert(fields.take(2).push(fields[2]) =~= fields.take(3));
    let line = push_field_as_is(line, "msg", message.as_str(), true, Ghost(fields.take(3)));
    assert(fields.take(3).push(fields[3]) =~= fields.take(4));
    let line = push_field(line, "outbound", outbound, Ghost(fields.take(4)));
    assert(fields.take(4).push(fields[4]) =~= fields.take(5));
    let line = push_field(line, "dialer", dialer, Ghost(fields.take(5)));
    assert(fields.take(5).push(fields[5]) =~= fields);
    line
}

/// The line of an event named `name` of the level `level`. Where the event has a time, it is
/// `local` on the calendar of the machine. The line breaks nowhere, and holds the keys that one who
/// reads the log looks for.
pub fn render_core_event_logfmt(
    event: &CoreEvent<String>,
    name: &str,
    level: &str,
    local: LocalTime,
) -> (line: String)
    requires
        event.timestamp is Some ==> local.in_range(),
    ensures
        line@ == line_of(event_fields(event@, name@, level@, local)),
        !line@.contains('\n'),
        has_page_keys(line@),
{
    let line = head_line(event, name, level, local);
    let ghost f = head_fields(event@, name@, level@, local);
    let line = push_detail(line, "sniffed", event.sniffed.as_str(), Ghost(f));
    let ghost f = with_detail(f, "sniffed"@, event@.sniffed);
    let line = push_detail(line, "dial_target", event.dial_target.as_str(), Ghost(f));
    let ghost f = with_detail(f, "dial_target"@, event@.dial_target);
    let line = push_detail(line, "group", event.group.as_str(), Ghost(f));
    let ghost f = with_detail(f, "group"@, event@.group);
    let line = push_detail(line, "policy", event.policy.as_str(), Ghost(f));
    let ghost f = with_detail(f, "policy"@, event@.policy);
    let line = push_detail(line, "pname", event.pname.as_str(), Ghost(f));
    let ghost f = with_detail(f, "pname"@, event@.pname);
    let line = push_detail(line, "peer", event.peer.as_str(), Ghost(f));
    let ghost f = with_detail(f, "peer"@, event@.peer);
    let line = push_detail(line, "original_dst", event.original_dst.as_str(), Ghost(f));
    let ghost f = with_detail(f, "original_dst"@, event@.original_dst);
    let line = push_detail(line, "network", event.network.as_str(), Ghost(f));
    let ghost f = with_detail(f, "network"@, event@.network);
    let line = push_detail(line, "candidate_count", event.candidate_count.as_str(), Ghost(f));
    let ghost f = with_detail(f, "candidate_count"@, event@.candidate_count);
    let line = push_detail(line, "error", event.error.as_str(), Ghost(f));
    let ghost f = with_detail(f, "error"@, event@.error);
    let line = push_detail(line, "sniff_error", event.sniff_error.as_str(), Ghost(f));
    proof {
        law_line_is_one_line(event@, name@, level@, local);
        law_line_has_the_keys(event@, name@, level@, local);
    }
    line
}

/// Where `c` first stands in `text`, or the length of `text` where it does not.
pub open spec fn first_at(text: Seq<char>, c: char) -> nat
    decreases text.len(),
{
    if text.len() == 0 || text[0] == c {
        0
    } else {
        1 + first_at(text.drop_first(), c)
    }
}

/// `c` first stands in a text behind what does not hold it.
proof fn lemma_first_at(front: Seq<char>, back: Seq<char>, c: char)
    requires
        !front.contains(c),
        back.len() == 0 || back[0] == c,
    ensures
        first_at(front + back, c) == front.len(),
    decreases front.len(),
{
    if front.len() == 0 {
        assert(front + back =~= back);
    } else {
        assert(front[0] != c);
        assert((front + back).drop_first() =~= front.drop_first() + back);
        assert(!front.drop_first().contains(c)) by {
            if front.drop_first().contains(c) {
                let i = choose|i: int| 0 <= i < front.len() - 1 && front.drop_first()[i] == c;
                assert(front[i + 1] == c);
            }
        }
        lemma_first_at(front.drop_first(), back, c);
    }
}

/// `text` without a space at its front.
pub open spec fn without_space(text: Seq<char>) -> Seq<char> {
    if text.len() > 0 && text[0] == ' ' {
        text.skip(1)
    } else {
        text
    }
}

/// What one who reads a line finds in it: keys up to `=`, and values up to the quotation mark that
/// closes them or, where none opens them, up to a space.
pub open spec fn fields_read(line: Seq<char>) -> Seq<(Seq<char>, Seq<char>)>
    decreases line.len(),
{
    if line.len() == 0 {
        seq![]
    } else {
        let mark = first_at(line, '=') as int;
        let key = line.take(mark);
        let rest = line.skip(mark + 1);
        if mark >= line.len() {
            seq![(line, seq![])]
        } else if rest.len() > 0 && rest[0] == '"' {
            let body = rest.skip(1);
            let end = first_at(body, '"') as int;
            if end >= body.len() {
                seq![(key, body)]
            } else {
                seq![(key, body.take(end))] + fields_read(without_space(body.skip(end + 1)))
            }
        } else {
            let end = first_at(rest, ' ') as int;
            if end >= rest.len() {
                seq![(key, rest)]
            } else {
                seq![(key, rest.take(end))] + fields_read(rest.skip(end + 1))
            }
        }
    }
}

/// A field that can be told from what stands around it.
pub open spec fn is_clear(field: Field) -> bool {
    &&& !field.key.contains('=')
    &&& if field.quoted {
        !field.value.contains('"')
    } else {
        !needs_quotes(field.value)
    }
}

/// What a field says, and of what.
pub open spec fn pairs(fields: Seq<Field>) -> Seq<(Seq<char>, Seq<char>)> {
    fields.map_values(|f: Field| (f.key, f.value))
}

/// The first field of a line is read as it was written.
proof fn lemma_first_field_is_read(field: Field, tail: Seq<char>)
    requires
        is_clear(field),
        tail.len() == 0 || tail[0] == ' ',
    ensures
        fields_read(field_text(field) + tail) == seq![(field.key, field.value)] + fields_read(
            without_space(tail),
        ),
{
    reveal_strlit("=");
    reveal_strlit("=\"");
    reveal_strlit("\"");
    let line = field_text(field) + tail;
    let behind = line.skip(field.key.len() as int);
    assert(behind[0] == '=');
    assert(line =~= field.key + behind);
    lemma_first_at(field.key, behind, '=');
    assert(line.take(field.key.len() as int) =~= field.key);
    let rest = line.skip((field.key.len() + 1) as int);
    if field.quoted {
        let body = rest.skip(1);
        let close = seq!['"'] + tail;
        assert(body =~= field.value + close);
        lemma_first_at(field.value, close, '"');
        assert(body.take(field.value.len() as int) =~= field.value);
        assert(body.skip((field.value.len() + 1) as int) =~= tail);
    } else {
        assert(rest =~= field.value + tail);
        lemma_first_at(field.value, tail, ' ');
        if field.value.len() > 0 {
            assert(field.value.contains(field.value[0]));
        }
        if tail.len() == 0 {
            assert(rest =~= field.value);
            assert(fields_read(without_space(tail)) =~= seq![]);
        } else {
            assert(rest.take(field.value.len() as int) =~= field.value);
            assert(rest.skip((field.value.len() + 1) as int) =~= tail.skip(1));
        }
    }
    assert(fields_read(line) =~= seq![(field.key, field.value)] + fields_read(without_space(tail)));
}

/// A line is its first field, and the line of the others behind a space.
proof fn lemma_line_from_its_front(fields: Seq<Field>)
    requires
        fields.len() > 1,
    ensures
        line_of(fields) == field_text(fields[0]) + (" "@ + line_of(fields.drop_first())),
    decreases fields.len(),
{
    let short = fields.drop_last();
    if fields.len() == 2 {
        assert(fields.drop_first().len() == 1);
        assert(line_of(short) == field_text(fields[0]));
    } else {
        lemma_line_from_its_front(short);
        assert(short.drop_first() =~= fields.drop_first().drop_last());
        assert(fields.drop_first().last() == fields.last());
    }
    assert(line_of(fields) =~= field_text(fields[0]) + (" "@ + line_of(fields.drop_first())));
}

/// Fields that can be told apart are read back from their line.
pub proof fn law_clear_fields_are_read_back(fields: Seq<Field>)
    requires
        fields.len() > 0,
        forall|i: int| 0 <= i < fields.len() ==> is_clear(#[trigger] fields[i]),
    ensures
        fields_read(line_of(fields)) == pairs(fields),
    decreases fields.len(),
{
    reveal_strlit(" ");
    let first = fields[0];
    if fields.len() == 1 {
        lemma_first_field_is_read(first, seq![]);
        assert(field_text(first) + seq![] =~= field_text(first));
        assert(fields_read(without_space(seq![])) =~= seq![]);
    } else {
        let others = fields.drop_first();
        assert forall|i: int| 0 <= i < others.len() implies is_clear(#[trigger] others[i]) by {
            assert(others[i] == fields[i + 1]);
        }
        law_clear_fields_are_read_back(others);
        lemma_line_from_its_front(fields);
        let tail = " "@ + line_of(others);
        lemma_first_field_is_read(first, tail);
        assert(tail.skip(1) =~= line_of(others));
    }
    assert(fields_read(line_of(fields)) =~= pairs(fields));
}

/// A number as text holds no character that is neither a digit nor a minus sign.
proof fn lemma_not_in_number(n: int, width: nat, c: char)
    requires
        !decimal::is_digit(c),
        c != '-',
    ensures
        !decimal::zero_padded(n, width).contains(c),
{
    let size = if n < 0 {
        (-n) as nat
    } else {
        n as nat
    };
    decimal::lemma_decimal(size);
    let text = decimal::zero_padded(n, width);
    let digits = decimal::decimal(size);
    let front = text.len() - digits.len();
    assert forall|i: int| 0 <= i < text.len() implies #[trigger] text[i] != c by {
        if i >= front {
            assert(text[i] == digits[i - front]);
            assert(decimal::is_digit(digits[i - front]));
        }
    }
}

/// A time as text holds nothing but digits and the marks between them.
proof fn lemma_not_in_time(event: CoreEvent<Seq<char>>, t: LocalTime, c: char)
    requires
        !decimal::is_digit(c),
        c != '-',
        c != ' ',
        c != ':',
    ensures
        !shown_time(event, t).contains(c),
{
    reveal_strlit("-");
    reveal_strlit(" ");
    reveal_strlit(":");
    assert(!"-"@.contains(c));
    assert(!" "@.contains(c));
    assert(!":"@.contains(c));
    if event.timestamp is Some {
        let year = decimal::zero_padded(t.year + 1900, 4);
        let month = decimal::zero_padded(t.month + 1, 2);
        let day = decimal::zero_padded(t.day as int, 2);
        let hour = decimal::zero_padded(t.hour as int, 2);
        let minute = decimal::zero_padded(t.minute as int, 2);
        let second = decimal::zero_padded(t.second as int, 2);
        lemma_not_in_number(t.year + 1900, 4, c);
        lemma_not_in_number(t.month + 1, 2, c);
        lemma_not_in_number(t.day as int, 2, c);
        lemma_not_in_number(t.hour as int, 2, c);
        lemma_not_in_number(t.minute as int, 2, c);
        lemma_not_in_number(t.second as int, 2, c);
        text::lemma_not_in_two(year, "-"@, c);
        let front = year + "-"@;
        text::lemma_not_in_two(front, month, c);
        let front = front + month;
        text::lemma_not_in_two(front, "-"@, c);
        let front = front + "-"@;
        text::lemma_not_in_two(front, day, c);
        let front = front + day;
        text::lemma_not_in_two(front, " "@, c);
        let front = front + " "@;
        text::lemma_not_in_two(front, hour, c);
        let front = front + hour;
        text::lemma_not_in_two(front, ":"@, c);
        let front = front + ":"@;
        text::lemma_not_in_two(front, minute, c);
        let front = front + minute;
        text::lemma_not_in_two(front, ":"@, c);
        let front = front + ":"@;
        text::lemma_not_in_two(front, second, c);
    }
}

/// A value as it stands in a field holds no quotation mark and breaks no line, and is as it was
/// where it held none and broke none.
proof fn lemma_clean(value: Seq<char>)
    ensures
        !clean(value).contains('"'),
        text::is_flat(clean(value)),
        !text::one_lined(value).contains('"') ==> clean(value) == text::one_lined(value),
{
    let flat = text::one_lined(value);
    text::lemma_one_lined(value);
    assert forall|i: int| 0 <= i < clean(value).len() implies #[trigger] clean(value)[i] != '"'
        && clean(value)[i] != '\n' by {
        assert(flat.contains(flat[i]));
    }
    if !flat.contains('"') {
        assert forall|i: int| 0 <= i < flat.len() implies clean(value)[i] == #[trigger] flat[i] by {
            assert(flat.contains(flat[i]));
        }
        assert(clean(value) =~= flat);
    }
}

/// Whatever its value holds, a field can be told from what stands around it: the value stands in
/// quotation marks and holds none, or it holds neither a space nor a quotation mark. And the value
/// breaks no line.
pub proof fn law_values_are_quoted_where_they_must_be(key: Seq<char>, value: Seq<char>)
    requires
        !key.contains('='),
    ensures
        is_clear(field_of(key, value)),
        text::is_flat(field_of(key, value).value),
{
    lemma_clean(value);
}

/// All of the fields can be told from what stands around them.
pub open spec fn all_clear(fields: Seq<Field>) -> bool {
    forall|i: int| 0 <= i < fields.len() ==> is_clear(#[trigger] fields[i])
}

/// None of the fields breaks a line.
pub open spec fn all_flat(fields: Seq<Field>) -> bool {
    forall|i: int|
        0 <= i < fields.len() ==> text::is_flat((#[trigger] fields[i]).key) && text::is_flat(
            fields[i].value,
        )
}

proof fn lemma_with_detail(fields: Seq<Field>, key: Seq<char>, value: Seq<char>, head: Seq<Field>)
    requires
        all_flat(fields),
        head.is_prefix_of(fields),
        !key.contains('='),
        text::is_flat(key),
    ensures
        all_flat(with_detail(fields, key, value)),
        head.is_prefix_of(with_detail(fields, key, value)),
        all_clear(fields) ==> all_clear(with_detail(fields, key, value)),
{
    law_values_are_quoted_where_they_must_be(key, value);
}

/// Keys hold nothing but small letters and underscores.
proof fn lemma_not_in_keys(c: char)
    requires
        c < 'a' || 'z' < c,
        c != '_',
    ensures
        !"time"@.contains(c),
        !"level"@.contains(c),
        !"event"@.contains(c),
        !"msg"@.contains(c),
        !"outbound"@.contains(c),
        !"dialer"@.contains(c),
        !"sniffed"@.contains(c),
        !"dial_target"@.contains(c),
        !"group"@.contains(c),
        !"policy"@.contains(c),
        !"pname"@.contains(c),
        !"peer"@.contains(c),
        !"original_dst"@.contains(c),
        !"network"@.contains(c),
        !"candidate_count"@.contains(c),
        !"error"@.contains(c),
        !"sniff_error"@.contains(c),
{
    reveal_strlit("time");
    reveal_strlit("level");
    reveal_strlit("event");
    reveal_strlit("msg");
    reveal_strlit("outbound");
    reveal_strlit("dialer");
    reveal_strlit("sniffed");
    reveal_strlit("dial_target");
    reveal_strlit("group");
    reveal_strlit("policy");
    reveal_strlit("pname");
    reveal_strlit("peer");
    reveal_strlit("original_dst");
    reveal_strlit("network");
    reveal_strlit("candidate_count");
    reveal_strlit("error");
    reveal_strlit("sniff_error");
}

/// `text` can stand in a field without quotation marks, and breaks no line.
pub open spec fn is_plain(text: Seq<char>) -> bool {
    !needs_quotes(text) && text::is_flat(text)
}

proof fn lemma_head_fields(
    event: CoreEvent<Seq<char>>,
    name: Seq<char>,
    level: Seq<char>,
    local: LocalTime,
)
    ensures
        all_flat(head_fields(event, name, level, local)),
        is_plain(name) && is_plain(level) ==> all_clear(head_fields(event, name, level, local)),
{
    lemma_not_in_keys('=');
    lemma_not_in_keys('\n');
    lemma_not_in_time(event, local, '"');
    lemma_not_in_time(event, local, '\n');
    text::lemma_one_lined(name);
    text::lemma_one_lined(level);
    lemma_clean(message_of(event, name));
    law_values_are_quoted_where_they_must_be("outbound"@, or_dash(event.outbound));
    law_values_are_quoted_where_they_must_be("dialer"@, or_dash(event.dialer));
}

proof fn lemma_event_fields(
    event: CoreEvent<Seq<char>>,
    name: Seq<char>,
    level: Seq<char>,
    local: LocalTime,
)
    ensures
        head_fields(event, name, level, local).is_prefix_of(
            event_fields(event, name, level, local),
        ),
        all_flat(event_fields(event, name, level, local)),
        is_plain(name) && is_plain(level) ==> all_clear(event_fields(event, name, level, local)),
{
    lemma_not_in_keys('=');
    lemma_not_in_keys('\n');
    lemma_head_fields(event, name, level, local);
    let head = head_fields(event, name, level, local);
    let f = head;
    assert(head.is_prefix_of(f));
    lemma_with_detail(f, "sniffed"@, event.sniffed, head);
    let f = with_detail(f, "sniffed"@, event.sniffed);
    lemma_with_detail(f, "dial_target"@, event.dial_target, head);
    let f = with_detail(f, "dial_target"@, event.dial_target);
    lemma_with_detail(f, "group"@, event.group, head);
    let f = with_detail(f, "group"@, event.group);
    lemma_with_detail(f, "policy"@, event.policy, head);
    let f = with_detail(f, "policy"@, event.policy);
    lemma_with_detail(f, "pname"@, event.pname, head);
    let f = with_detail(f, "pname"@, event.pname);
    lemma_with_detail(f, "peer"@, event.peer, head);
    let f = with_detail(f, "peer"@, event.peer);
    lemma_with_detail(f, "original_dst"@, event.original_dst, head);
    let f = with_detail(f, "original_dst"@, event.original_dst);
    lemma_with_detail(f, "network"@, event.network, head);
    let f = with_detail(f, "network"@, event.network);
    lemma_with_detail(f, "candidate_count"@, event.candidate_count, head);
    let f = with_detail(f, "candidate_count"@, event.candidate_count);
    lemma_with_detail(f, "error"@, event.error, head);
    let f = with_detail(f, "error"@, event.error);
    lemma_with_detail(f, "sniff_error"@, event.sniff_error, head);
}

/// A field whose key and value do not hold `c` does not hold it either.
proof fn lemma_not_in_field(field: Field, c: char)
    requires
        !field.key.contains(c),
        !field.value.contains(c),
        c != '=',
        c != '"',
    ensures
        !field_text(field).contains(c),
{
    reveal_strlit("=");
    reveal_strlit("=\"");
    reveal_strlit("\"");
    if field.quoted {
        assert(!"=\""@.contains(c));
        assert(!"\""@.contains(c));
        text::lemma_not_in_two(field.key, "=\""@, c);
        text::lemma_not_in_two(field.key + "=\""@, field.value, c);
        text::lemma_not_in_two(field.key + "=\""@ + field.value, "\""@, c);
    } else {
        assert(!"="@.contains(c));
        text::lemma_not_in_two(field.key, "="@, c);
        text::lemma_not_in_two(field.key + "="@, field.value, c);
    }
}

/// A line of fields none of which breaks a line breaks nowhere.
proof fn lemma_flat_fields_make_one_line(fields: Seq<Field>)
    requires
        all_flat(fields),
    ensures
        text::is_flat(line_of(fields)),
    decreases fields.len(),
{
    reveal_strlit(" ");
    assert(!" "@.contains('\n'));
    if fields.len() > 0 {
        let last = fields.last();
        assert(last == fields[fields.len() - 1]);
        lemma_not_in_field(last, '\n');
        if fields.len() > 1 {
            let rest = fields.drop_last();
            assert forall|i: int| 0 <= i < rest.len() implies text::is_flat(
                (#[trigger] rest[i]).key,
            ) && text::is_flat(rest[i].value) by {
                assert(rest[i] == fields[i]);
            }
            lemma_flat_fields_make_one_line(rest);
            let front = line_of(rest);
            text::lemma_not_in_two(front, " "@, '\n');
            text::lemma_not_in_two(front + " "@, field_text(last), '\n');
        }
    }
}

/// The line of an event is one line, whatever the event holds.
pub proof fn law_line_is_one_line(
    event: CoreEvent<Seq<char>>,
    name: Seq<char>,
    level: Seq<char>,
    local: LocalTime,
)
    ensures
        text::is_flat(line_of(event_fields(event, name, level, local))),
{
    lemma_event_fields(event, name, level, local);
    lemma_flat_fields_make_one_line(event_fields(event, name, level, local));
}

/// The key of every field stands in the line, with the mark behind it.
proof fn lemma_key_in_line(fields: Seq<Field>, i: int)
    requires
        0 <= i < fields.len(),
    ensures
        text::has_part(line_of(fields), fields[i].key + "="@),
    decreases fields.len(),
{
    let last = fields.last();
    let shown = field_text(last);
    if i == fields.len() - 1 {
        let part = last.key + "="@;
        reveal_strlit("=");
        reveal_strlit("=\"");
        assert(shown.subrange(0, part.len() as int) =~= part);
        assert(text::occurs_at(shown, part, 0));
        text::lemma_part_of_two(line_of(fields.drop_last()) + " "@, shown, part);
    } else {
        let rest = fields.drop_last();
        let part = fields[i].key + "="@;
        lemma_key_in_line(rest, i);
        text::lemma_part_of_two(line_of(rest), " "@, part);
        text::lemma_part_of_two(line_of(rest) + " "@, shown, part);
    }
}

/// The line of an event holds the keys that one who reads the log looks for, whatever the event
/// holds.
pub proof fn law_line_has_the_keys(
    event: CoreEvent<Seq<char>>,
    name: Seq<char>,
    level: Seq<char>,
    local: LocalTime,
)
    ensures
        has_page_keys(line_of(event_fields(event, name, level, local))),
{
    let head = head_fields(event, name, level, local);
    let fields = event_fields(event, name, level, local);
    lemma_event_fields(event, name, level, local);
    assert forall|i: int| 0 <= i < 6 implies #[trigger] fields[i] == head[i] by {
        assert(fields.subrange(0, 6)[i] == head[i]);
    }
    lemma_key_in_line(fields, 0);
    lemma_key_in_line(fields, 1);
    lemma_key_in_line(fields, 3);
    lemma_key_in_line(fields, 4);
    lemma_key_in_line(fields, 5);
    lemma_keys_with_their_mark();
}

proof fn lemma_keys_with_their_mark()
    ensures
        "time"@ + "="@ == "time="@,
        "level"@ + "="@ == "level="@,
        "msg"@ + "="@ == "msg="@,
        "outbound"@ + "="@ == "outbound="@,
        "dialer"@ + "="@ == "dialer="@,
{
    reveal_strlit("=");
    reveal_strlit("time");
    reveal_strlit("time=");
    reveal_strlit("level");
    reveal_strlit("level=");
    reveal_strlit("msg");
    reveal_strlit("msg=");
    reveal_strlit("outbound");
    reveal_strlit("outbound=");
    reveal_strlit("dialer");
    reveal_strlit("dialer=");
    assert("time"@ + "="@ =~= "time="@);
    assert("level"@ + "="@ =~= "level="@);
    assert("msg"@ + "="@ =~= "msg="@);
    assert("outbound"@ + "="@ =~= "outbound="@);
    assert("dialer"@ + "="@ =~= "dialer="@);
}

/// The line of an event is read back as the fields that it was made of, as long as its name and its
/// level hold neither a space nor a quotation mark and break no line; nothing in any other value of
/// the event leads astray. The time, the level, the name, the message, the way out and the dialer
/// come first.
pub proof fn law_line_is_read_back(
    event: CoreEvent<Seq<char>>,
    name: Seq<char>,
    level: Seq<char>,
    local: LocalTime,
)
    requires
        is_plain(name),
        is_plain(level),
    ensures
        ({
            let fields = event_fields(event, name, level, local);
            let read = fields_read(line_of(fields));
            &&& read == pairs(fields)
            &&& read.len() >= 6
            &&& read[0] == ("time"@, shown_time(event, local))
            &&& read[1] == ("level"@, level)
            &&& read[2] == ("event"@, name)
            &&& read[3] == ("msg"@, clean(message_of(event, name)))
            &&& read[4] == ("outbound"@, clean(or_dash(event.outbound)))
            &&& read[5] == ("dialer"@, clean(or_dash(event.dialer)))
        }),
{
    let fields = event_fields(event, name, level, local);
    let head = head_fields(event, name, level, local);
    lemma_event_fields(event, name, level, local);
    text::lemma_one_lined(name);
    text::lemma_one_lined(level);
    law_clear_fields_are_read_back(fields);
    assert(head.len() == 6);
    assert forall|i: int| 0 <= i < 6 implies #[trigger] fields[i] == head[i] by {
        assert(fields.subrange(0, 6)[i] == head[i]);
    }
    assert(pairs(fields)[0] == (fields[0].key, fields[0].value));
}

/// `value` as one who reads a line is to find it: a space for every line feed, an apostrophe for
/// every quotation mark, and every other character as it is.
pub open spec fn as_found(value: Seq<char>) -> Seq<char> {
    Seq::new(
        value.len(),
        |i: int|
            if value[i] == '\n' {
                ' '
            } else if value[i] == '"' {
                '\''
            } else {
                value[i]
            },
    )
}

/// `read` tells `value` under `key`: where there is something to tell, other than `null`, that is
/// there under this key, and nothing else is; where there is not, nothing is.
pub open spec fn tells(
    read: Seq<(Seq<char>, Seq<char>)>,
    key: Seq<char>,
    value: Seq<char>,
) -> bool {
    if value.len() == 0 || value == "null"@ {
        forall|i: int| 0 <= i < read.len() ==> (#[trigger] read[i]).0 != key
    } else {
        &&& read.contains((key, as_found(value)))
        &&& forall|i: int|
            0 <= i < read.len() && (#[trigger] read[i]).0 == key ==> read[i].1 == as_found(value)
    }
}

/// No field has the key `key`.
spec fn lacks(fields: Seq<Field>, key: Seq<char>) -> bool {
    forall|i: int| 0 <= i < fields.len() ==> (#[trigger] fields[i]).key != key
}

proof fn lemma_as_found(value: Seq<char>)
    ensures
        clean(value) == as_found(value),
{
    assert(clean(value) =~= as_found(value));
}

proof fn lemma_tells(fields: Seq<Field>, key: Seq<char>, value: Seq<char>)
    requires
        lacks(fields, key),
    ensures
        tells(pairs(with_detail(fields, key, value)), key, value),
{
    lemma_as_found(value);
    let longer = with_detail(fields, key, value);
    let read = pairs(longer);
    assert forall|i: int| 0 <= i < fields.len() implies (#[trigger] read[i]).0 != key by {
        assert(longer[i] == fields[i]);
    }
    if !(value.len() == 0 || value == "null"@) {
        assert(read[fields.len() as int] == (key, as_found(value)));
    }
}

proof fn lemma_tells_stays(
    fields: Seq<Field>,
    other: Seq<char>,
    detail: Seq<char>,
    key: Seq<char>,
    value: Seq<char>,
)
    requires
        key != other,
    ensures
        lacks(fields, key) ==> lacks(with_detail(fields, other, detail), key),
        tells(pairs(fields), key, value) ==> tells(
            pairs(with_detail(fields, other, detail)),
            key,
            value,
        ),
{
    let longer = with_detail(fields, other, detail);
    let before = pairs(fields);
    let after = pairs(longer);
    assert forall|i: int| 0 <= i < fields.len() implies #[trigger] longer[i] == fields[i] by {
    }
    assert forall|i: int| 0 <= i < before.len() implies #[trigger] after[i] == before[i] by {
    }
    if tells(before, key, value) && !(value.len() == 0 || value == "null"@) {
        let i = choose|i: int| 0 <= i < before.len() && before[i] == (key, as_found(value));
        assert(after[i] == (key, as_found(value)));
    }
}

/// A detail: its key and its value.
spec fn detail_of(event: CoreEvent<Seq<char>>, i: int) -> (Seq<char>, Seq<char>) {
    if i == 0 {
        ("sniffed"@, event.sniffed)
    } else if i == 1 {
        ("dial_target"@, event.dial_target)
    } else if i == 2 {
        ("group"@, event.group)
    } else if i == 3 {
        ("policy"@, event.policy)
    } else if i == 4 {
        ("pname"@, event.pname)
    } else if i == 5 {
        ("peer"@, event.peer)
    } else if i == 6 {
        ("original_dst"@, event.original_dst)
    } else if i == 7 {
        ("network"@, event.network)
    } else if i == 8 {
        ("candidate_count"@, event.candidate_count)
    } else if i == 9 {
        ("error"@, event.error)
    } else {
        ("sniff_error"@, event.sniff_error)
    }
}

/// No two keys are the same.
proof fn lemma_keys_differ(event: CoreEvent<Seq<char>>)
    ensures
        forall|i: int, j: int|
            0 <= i < j < 11 ==> (#[trigger] detail_of(event, i)).0 != (#[trigger] detail_of(
                event,
                j,
            )).0,
        forall|i: int|
            0 <= i < 11 ==> (#[trigger] detail_of(event, i)).0 != "time"@ && detail_of(event, i).0
                != "level"@ && detail_of(event, i).0 != "event"@ && detail_of(event, i).0 != "msg"@
                && detail_of(event, i).0 != "outbound"@ && detail_of(event, i).0 != "dialer"@,
{
    reveal_strlit("time");
    reveal_strlit("level");
    reveal_strlit("event");
    reveal_strlit("msg");
    reveal_strlit("outbound");
    reveal_strlit("dialer");
    reveal_strlit("sniffed");
    reveal_strlit("dial_target");
    reveal_strlit("group");
    reveal_strlit("policy");
    reveal_strlit("pname");
    reveal_strlit("peer");
    reveal_strlit("original_dst");
    reveal_strlit("network");
    reveal_strlit("candidate_count");
    reveal_strlit("error");
    reveal_strlit("sniff_error");
    assert("time"@.len() == 4 && "time"@[0] == 't');
    assert("level"@.len() == 5 && "level"@[0] == 'l');
    assert("event"@.len() == 5 && "event"@[0] == 'e' && "event"@[1] == 'v');
    assert("msg"@.len() == 3);
    assert("outbound"@.len() == 8);
    assert("dialer"@.len() == 6 && "dialer"@[0] == 'd');
    assert("sniffed"@.len() == 7 && "sniffed"@[0] == 's');
    assert("dial_target"@.len() == 11 && "dial_target"@[0] == 'd');
    assert("group"@.len() == 5 && "group"@[0] == 'g');
    assert("policy"@.len() == 6 && "policy"@[0] == 'p');
    assert("pname"@.len() == 5 && "pname"@[0] == 'p');
    assert("peer"@.len() == 4 && "peer"@[0] == 'p');
    assert("original_dst"@.len() == 12);
    assert("network"@.len() == 7 && "network"@[0] == 'n');
    assert("candidate_count"@.len() == 15);
    assert("error"@.len() == 5 && "error"@[0] == 'e' && "error"@[1] == 'r');
    assert("sniff_error"@.len() == 11 && "sniff_error"@[0] == 's');
}

/// `fields`, and the first `n` details of an event.
spec fn with_details(fields: Seq<Field>, event: CoreEvent<Seq<char>>, n: int) -> Seq<Field>
    decreases n,
{
    if n <= 0 {
        fields
    } else {
        with_detail(
            with_details(fields, event, n - 1),
            detail_of(event, n - 1).0,
            detail_of(event, n - 1).1,
        )
    }
}

proof fn lemma_details(
    event: CoreEvent<Seq<char>>,
    name: Seq<char>,
    level: Seq<char>,
    local: LocalTime,
)
    ensures
        event_fields(event, name, level, local) == with_details(
            head_fields(event, name, level, local),
            event,
            11,
        ),
{
    reveal_with_fuel(with_details, 12);
}

proof fn lemma_details_told(
    event: CoreEvent<Seq<char>>,
    name: Seq<char>,
    level: Seq<char>,
    local: LocalTime,
    n: int,
    i: int,
)
    requires
        0 <= n <= 11,
        0 <= i < 11,
    ensures
        ({
            let fields = with_details(head_fields(event, name, level, local), event, n);
            let detail = detail_of(event, i);
            &&& n <= i ==> lacks(fields, detail.0)
            &&& i < n ==> tells(pairs(fields), detail.0, detail.1)
        }),
    decreases n,
{
    let head = head_fields(event, name, level, local);
    let detail = detail_of(event, i);
    lemma_keys_differ(event);
    if n == 0 {
        assert(lacks(head, detail.0));
    } else {
        lemma_details_told(event, name, level, local, n - 1, i);
        let fields = with_details(head, event, n - 1);
        let last = detail_of(event, n - 1);
        if i == n - 1 {
            lemma_tells(fields, detail.0, detail.1);
        } else {
            lemma_tells_stays(fields, last.0, last.1, detail.0, detail.1);
        }
    }
}

/// The line of an event tells every detail of it under its own key, and nothing else under that
/// key: a value that is there, and is not `null`, is read back with apostrophes for quotation marks
/// and spaces for line feeds; where there is none, no field has the key.
pub proof fn law_line_tells_every_detail(
    event: CoreEvent<Seq<char>>,
    name: Seq<char>,
    level: Seq<char>,
    local: LocalTime,
)
    requires
        is_plain(name),
        is_plain(level),
    ensures
        ({
            let read = fields_read(line_of(event_fields(event, name, level, local)));
            &&& tells(read, "sniffed"@, event.sniffed)
            &&& tells(read, "dial_target"@, event.dial_target)
            &&& tells(read, "group"@, event.group)
            &&& tells(read, "policy"@, event.policy)
            &&& tells(read, "pname"@, event.pname)
            &&& tells(read, "peer"@, event.peer)
            &&& tells(read, "original_dst"@, event.original_dst)
            &&& tells(read, "network"@, event.network)
            &&& tells(read, "candidate_count"@, event.candidate_count)
            &&& tells(read, "error"@, event.error)
            &&& tells(read, "sniff_error"@, event.sniff_error)
        }),
{
    law_line_is_read_back(event, name, level, local);
    lemma_details(event, name, level, local);
    lemma_details_told(event, name, level, local, 11, 0);
    lemma_details_told(event, name, level, local, 11, 1);
    lemma_details_told(event, name, level, local, 11, 2);
    lemma_details_told(event, name, level, local, 11, 3);
    lemma_details_told(event, name, level, local, 11, 4);
    lemma_details_told(event, name, level, local, 11, 5);
    lemma_details_told(event, name, level, local, 11, 6);
    lemma_details_told(event, name, level, local, 11, 7);
    lemma_details_told(event, name, level, local, 11, 8);
    lemma_details_told(event, name, level, local, 11, 9);
    lemma_details_told(event, name, level, local, 11, 10);
}

/// `value` as it stands behind the `=` of a field: as one who reads the line is to find it, between
/// quotation marks where a space or a quotation mark would lead astray.
pub open spec fn as_written(value: Seq<char>) -> Seq<char> {
    if value.contains(' ') || value.contains('\n') || value.contains('"') {
        "\""@ + as_found(value) + "\""@
    } else {
        value
    }
}

/// What a detail adds to a line.
pub open spec fn added_by(key: Seq<char>, value: Seq<char>) -> Seq<char> {
    if value.len() == 0 || value == "null"@ {
        seq![]
    } else {
        " "@ + (key + "="@ + as_written(value))
    }
}

/// `text` with a space for every line feed.
pub open spec fn in_line(text: Seq<char>) -> Seq<char> {
    Seq::new(
        text.len(),
        |i: int|
            if text[i] == '\n' {
                ' '
            } else {
                text[i]
            },
    )
}

proof fn lemma_as_written(key: Seq<char>, value: Seq<char>)
    ensures
        field_text(field_of(key, value)) == key + "="@ + as_written(value),
{
    reveal_strlit("=");
    reveal_strlit("=\"");
    reveal_strlit("\"");
    lemma_as_found(value);
    let flat = text::one_lined(value);
    assert(forall|i: int|
        0 <= i < value.len() ==> #[trigger] flat[i] == (if value[i] == '\n' {
            ' '
        } else {
            value[i]
        }));
    if value.contains(' ') || value.contains('\n') || value.contains('"') {
        let i = choose|i: int|
            0 <= i < value.len() && (value[i] == ' ' || value[i] == '\n' || value[i] == '"');
        assert(flat.contains(flat[i]));
        assert(needs_quotes(flat));
    } else {
        assert forall|i: int| 0 <= i < value.len() implies #[trigger] flat[i] == value[i] && flat[i]
            != ' ' && flat[i] != '"' by {
            assert(value.contains(value[i]));
        }
        assert forall|i: int| 0 <= i < value.len() implies #[trigger] as_found(value)[i]
            == value[i] by {
            assert(value.contains(value[i]));
        }
        assert(as_found(value) =~= value);
        assert(!needs_quotes(flat));
    }
    assert(field_text(field_of(key, value)) =~= key + "="@ + as_written(value));
}

proof fn lemma_added_by(fields: Seq<Field>, key: Seq<char>, value: Seq<char>)
    requires
        fields.len() > 0,
    ensures
        line_of(with_detail(fields, key, value)) == line_of(fields) + added_by(key, value),
        with_detail(fields, key, value).len() > 0,
{
    lemma_as_written(key, value);
    let longer = with_detail(fields, key, value);
    if value.len() == 0 || value == "null"@ {
        assert(line_of(fields) + added_by(key, value) =~= line_of(fields));
    } else {
        assert(longer.drop_last() =~= fields);
        assert(line_of(longer) =~= line_of(fields) + added_by(key, value));
    }
}

/// The line of an event, from its first character to its last: the time, the level, the name, the
/// message, the way out and the dialer, of which each always stands there, with a dash for a time,
/// a way out or a dialer that is not known, and then what each detail adds, in order.
pub proof fn law_line_is_written_in_order(
    event: CoreEvent<Seq<char>>,
    name: Seq<char>,
    level: Seq<char>,
    local: LocalTime,
)
    ensures
        ({
            let time = match event.timestamp {
                Some(_) => time_text(local),
                None => "-"@,
            };
            let outbound = if event.outbound.len() > 0 {
                event.outbound
            } else {
                "-"@
            };
            let dialer = if event.dialer.len() > 0 {
                event.dialer
            } else {
                "-"@
            };
            line_of(event_fields(event, name, level, local)) == "time"@ + "=\""@ + time + "\""@
                + " "@ + ("level"@ + "="@ + in_line(level)) + " "@ + ("event"@ + "="@ + in_line(
                name,
            )) + " "@ + ("msg"@ + "=\""@ + as_found(message_of(event, name)) + "\""@) + " "@ + (
            "outbound"@ + "="@ + as_written(outbound)) + " "@ + ("dialer"@ + "="@ + as_written(
                dialer,
            )) + added_by("sniffed"@, event.sniffed) + added_by("dial_target"@, event.dial_target)
                + added_by("group"@, event.group) + added_by("policy"@, event.policy) + added_by(
                "pname"@,
                event.pname,
            ) + added_by("peer"@, event.peer) + added_by("original_dst"@, event.original_dst)
                + added_by("network"@, event.network) + added_by(
                "candidate_count"@,
                event.candidate_count,
            ) + added_by("error"@, event.error) + added_by("sniff_error"@, event.sniff_error)
        }),
{
    let h = head_fields(event, name, level, local);
    assert(h.take(1).drop_last() =~= Seq::<Field>::empty());
    assert(h.take(2).drop_last() =~= h.take(1));
    assert(h.take(3).drop_last() =~= h.take(2));
    assert(h.take(4).drop_last() =~= h.take(3));
    assert(h.take(5).drop_last() =~= h.take(4));
    assert(h.drop_last() =~= h.take(5));
    assert(text::one_lined(level) =~= in_line(level));
    assert(text::one_lined(name) =~= in_line(name));
    lemma_as_found(message_of(event, name));
    lemma_as_written("outbound"@, or_dash(event.outbound));
    lemma_as_written("dialer"@, or_dash(event.dialer));
    assert(line_of(h.take(1)) == field_text(h[0]));
    assert(line_of(h.take(2)) == line_of(h.take(1)) + " "@ + field_text(h[1]));
    assert(line_of(h.take(3)) == line_of(h.take(2)) + " "@ + field_text(h[2]));
    assert(line_of(h.take(4)) == line_of(h.take(3)) + " "@ + field_text(h[3]));
    assert(line_of(h.take(5)) == line_of(h.take(4)) + " "@ + field_text(h[4]));
    assert(line_of(h) == line_of(h.take(5)) + " "@ + field_text(h[5]));
    let f = h;
    lemma_added_by(f, "sniffed"@, event.sniffed);
    let f = with_detail(f, "sniffed"@, event.sniffed);
    lemma_added_by(f, "dial_target"@, event.dial_target);
    let f = with_detail(f, "dial_target"@, event.dial_target);
    lemma_added_by(f, "group"@, event.group);
    let f = with_detail(f, "group"@, event.group);
    lemma_added_by(f, "policy"@, event.policy);
    let f = with_detail(f, "policy"@, event.policy);
    lemma_added_by(f, "pname"@, event.pname);
    let f = with_detail(f, "pname"@, event.pname);
    lemma_added_by(f, "peer"@, event.peer);
    let f = with_detail(f, "peer"@, event.peer);
    lemma_added_by(f, "original_dst"@, event.original_dst);
    let f = with_detail(f, "original_dst"@, event.original_dst);
    lemma_added_by(f, "network"@, event.network);
    let f = with_detail(f, "network"@, event.network);
    lemma_added_by(f, "candidate_count"@, event.candidate_count);
    let f = with_detail(f, "candidate_count"@, event.candidate_count);
    lemma_added_by(f, "error"@, event.error);
    let f = with_detail(f, "error"@, event.error);
    lemma_added_by(f, "sniff_error"@, event.sniff_error);
}

proof fn lemma_event_names_differ()
    ensures
        "tcp_route_chosen"@.len() == 16,
        "udp_route_chosen"@.len() == 16,
        "tcp_route_chosen"@[0] == 't',
        "udp_route_chosen"@[0] == 'u',
        "dns_path_chosen"@.len() == 15,
        "dns_bind_query_finished"@.len() == 23,
        "udp_session_started"@.len() == 19,
        "udp_session_stopped"@.len() == 19,
        "udp_session_started"@[14] == 'a',
        "udp_session_stopped"@[14] == 'o',
        "resident_health_checker_started"@.len() == 31,
        "tcp_worker_started"@.len() == 18,
        "udp_session_manager_started"@.len() == 27,
        "resident_health_scheduler_started"@.len() == 33,
{
    reveal_strlit("tcp_route_chosen");
    reveal_strlit("udp_route_chosen");
    reveal_strlit("dns_path_chosen");
    reveal_strlit("dns_bind_query_finished");
    reveal_strlit("udp_session_started");
    reveal_strlit("udp_session_stopped");
    reveal_strlit("resident_health_checker_started");
    reveal_strlit("tcp_worker_started");
    reveal_strlit("udp_session_manager_started");
    reveal_strlit("resident_health_scheduler_started");
}

/// A connection goes to the name that was sniffed, else to what is dialled, else to where it was
/// going; by the way out that is known, else by a question mark; and by the dialer where one is
/// known. The message of a chosen route, of a chosen path and of a session says so.
pub proof fn law_message_says_where_a_connection_goes(
    event: CoreEvent<Seq<char>>,
    target: Seq<char>,
    outbound: Seq<char>,
    by: Seq<char>,
)
    requires
        event.sniffed.len() > 0 ==> target == event.sniffed,
        event.sniffed.len() == 0 && event.dial_target.len() > 0 ==> target == event.dial_target,
        event.sniffed.len() == 0 && event.dial_target.len() == 0 ==> target == event.original_dst,
        event.outbound.len() > 0 ==> outbound == event.outbound,
        event.outbound.len() == 0 ==> outbound == "?"@,
        event.dialer.len() > 0 ==> by == " via "@ + event.dialer,
        event.dialer.len() == 0 ==> by.len() == 0,
    ensures
        message_of(event, "tcp_route_chosen"@) == event.network + " "@ + target + " -> "@ + outbound
            + by,
        message_of(event, "udp_route_chosen"@) == "udp "@ + target + " -> "@ + outbound + by,
        message_of(event, "dns_path_chosen"@) == "dns "@ + event.qname + " -> upstream="@
            + event.upstream + by,
        message_of(event, "dns_bind_query_finished"@) == "dns "@ + event.qname + " -> upstream="@
            + event.upstream + by,
        message_of(event, "udp_session_started"@) == "udp session started "@ + target + by,
        message_of(event, "udp_session_stopped"@) == "udp session stopped "@ + target,
{
    lemma_event_names_differ();
}

/// The messages of what is started say what is known of it.
pub proof fn law_message_says_what_was_started(event: CoreEvent<Seq<char>>)
    ensures
        message_of(event, "resident_health_checker_started"@) == "health checker started group="@
            + event.group + " policy="@ + event.group_policy + " candidates="@ + (
        if event.candidate_count_json is Some {
            event.candidate_count_json->0
        } else {
            "-"@
        }),
        message_of(event, "tcp_worker_started"@) == "tcp worker started (dial_mode="@
            + event.dial_mode + ")"@,
        message_of(event, "udp_session_manager_started"@) == "udp session manager started"@,
        message_of(event, "resident_health_scheduler_started"@) == "health scheduler started"@,
{
    lemma_event_names_differ();
}

/// The message of any other event is its name, and of one that tells of a failure its name and the
/// error: nothing else of the event matters.
pub proof fn law_message_of_other_events(event: CoreEvent<Seq<char>>, name: Seq<char>)
    requires
        name != "tcp_route_chosen"@,
        name != "udp_route_chosen"@,
        name != "dns_path_chosen"@,
        name != "dns_bind_query_finished"@,
        name != "udp_session_started"@,
        name != "udp_session_stopped"@,
        name != "resident_health_checker_started"@,
        name != "tcp_worker_started"@,
        name != "udp_session_manager_started"@,
        name != "resident_health_scheduler_started"@,
    ensures
        (exists|front: Seq<char>| name == #[trigger] (front + "_failed"@)) ==> message_of(
            event,
            name,
        ) == name + ": "@ + event.error,
        !(exists|front: Seq<char>| name == #[trigger] (front + "_failed"@)) ==> message_of(
            event,
            name,
        ) == name,
{
    text::law_end_stands_last(name, "_failed"@);
}

/// A number brought to a width is as wide, and stands for that number.
proof fn lemma_padded(n: nat, width: nat)
    requires
        width == 2 && n < 100 || width == 4 && n < 10000,
    ensures
        decimal::zero_padded(n as int, width).len() == width,
        decimal::digits_value(decimal::zero_padded(n as int, width)) == n,
{
    reveal_with_fuel(decimal::decimal, 5);
    decimal::lemma_decimal(n);
    decimal::lemma_zeros_add_nothing(n, width);
}

/// A moment of the years 0 to 9999 is written in nineteen characters: four digits of the year, two
/// of the month, counted from one, two of the day, and two each of the hour, the minute and the
/// second, with the marks between them that everybody expects.
pub proof fn law_moment_is_written_by_the_calendar(time: LocalTime)
    requires
        0 <= time.year + 1900 < 10000,
        0 <= time.month + 1 < 100,
        0 <= time.day < 100,
        0 <= time.hour < 100,
        0 <= time.minute < 100,
        0 <= time.second < 100,
    ensures
        ({
            let text = time_text(time);
            &&& text.len() == 19
            &&& decimal::digits_value(text.subrange(0, 4)) == time.year + 1900
            &&& text[4] == '-'
            &&& decimal::digits_value(text.subrange(5, 7)) == time.month + 1
            &&& text[7] == '-'
            &&& decimal::digits_value(text.subrange(8, 10)) == time.day
            &&& text[10] == ' '
            &&& decimal::digits_value(text.subrange(11, 13)) == time.hour
            &&& text[13] == ':'
            &&& decimal::digits_value(text.subrange(14, 16)) == time.minute
            &&& text[16] == ':'
            &&& decimal::digits_value(text.subrange(17, 19)) == time.second
        }),
{
    reveal_strlit("-");
    reveal_strlit(" ");
    reveal_strlit(":");
    lemma_padded((time.year + 1900) as nat, 4);
    lemma_padded((time.month + 1) as nat, 2);
    lemma_padded(time.day as nat, 2);
    lemma_padded(time.hour as nat, 2);
    lemma_padded(time.minute as nat, 2);
    lemma_padded(time.second as nat, 2);
    let text = time_text(time);
    assert(text.subrange(0, 4) =~= decimal::zero_padded(time.year + 1900, 4));
    assert(text.subrange(5, 7) =~= decimal::zero_padded(time.month + 1, 2));
    assert(text.subrange(8, 10) =~= decimal::zero_padded(time.day as int, 2));
    assert(text.subrange(11, 13) =~= decimal::zero_padded(time.hour as int, 2));
    assert(text.subrange(14, 16) =~= decimal::zero_padded(time.minute as int, 2));
    assert(text.subrange(17, 19) =~= decimal::zero_padded(time.second as int, 2));
}

/// Any moment is written as its six numbers, the year brought to four characters and the others to
/// two.
pub proof fn law_moment_is_written_in_order(time: LocalTime)
    ensures
        time_text(time) == decimal::zero_padded(1900 + time.year, 4) + "-"@ + decimal::zero_padded(
            1 + time.month,
            2,
        ) + "-"@ + decimal::zero_padded(time.day as int, 2) + " "@ + decimal::zero_padded(
            time.hour as int,
            2,
        ) + ":"@ + decimal::zero_padded(time.minute as int, 2) + ":"@ + decimal::zero_padded(
            time.second as int,
            2,
        ),
{
}

} // verus!
