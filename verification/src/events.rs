//! The events that the runtime reports, as far as the log of events reads them.

use crate::views;
use vstd::prelude::*;

verus! {

/// A JSON value of `serde_json`.
#[verifier::external_type_specification]
#[verifier::external_body]
pub struct ExValue(serde_json::Value);

/// The members of a JSON object whose values are strings.
pub uninterp spec fn json_strings(value: serde_json::Value) -> Map<Seq<char>, Seq<char>>;

/// The members of a JSON object whose values are numbers that are kept as integers and lie in the
/// range of `i64`.
pub uninterp spec fn json_integers(value: serde_json::Value) -> Map<Seq<char>, i64>;

/// The members of a JSON object, each as compact JSON text.
pub uninterp spec fn json_texts(value: serde_json::Value) -> Map<Seq<char>, Seq<char>>;

/// A JSON value as compact JSON text, character by character.
pub uninterp spec fn json_text(value: serde_json::Value) -> Seq<char>;

/// `serde_json::Value::get` and `serde_json::Value::as_str`: the string under `key`, where `value`
/// is an object that has a string there. There is none where `value` is no object, the object has
/// no such key, or what it has there is no string.
#[verifier::external_body]
fn member_str(value: &serde_json::Value, key: &str) -> (found: Option<String>)
    ensures
        match found {
            Some(s) => json_strings(*value).contains_key(key@) && json_strings(*value)[key@] == s@,
            None => !json_strings(*value).contains_key(key@),
        },
{
    value.get(key).and_then(serde_json::Value::as_str).map(str::to_owned)
}

/// `serde_json::Value::get` and `serde_json::Value::as_i64`: the integer under `key`, where `value`
/// is an object that has a number there which is kept as an integer and lies in the range of `i64`.
/// There is none in any other case.
#[verifier::external_body]
fn member_i64(value: &serde_json::Value, key: &str) -> (found: Option<i64>)
    ensures
        match found {
            Some(n) => json_integers(*value).contains_key(key@) && json_integers(*value)[key@] == n,
            None => !json_integers(*value).contains_key(key@),
        },
{
    value.get(key).and_then(serde_json::Value::as_i64)
}

/// `serde_json::Value::get` and the `Display` of `serde_json::Value`: what stands under `key` as
/// compact JSON text, where `value` is an object that has that key.
#[verifier::external_body]
fn member_text(value: &serde_json::Value, key: &str) -> (found: Option<String>)
    ensures
        match found {
            Some(s) => json_texts(*value).contains_key(key@) && json_texts(*value)[key@] == s@,
            None => !json_texts(*value).contains_key(key@),
        },
{
    value.get(key).map(ToString::to_string)
}

/// The `Display` of `serde_json::Value`: the value as compact JSON text. Compact text is one line:
/// nothing is put between its parts, and line feeds in strings are escaped.
#[verifier::external_body]
fn value_text(value: &serde_json::Value) -> (text: String)
    ensures
        text@ == json_text(*value),
        !text@.contains('\n'),
{
    value.to_string()
}

/// What the log of events reads of an event. Texts are `T`, and are empty where the event has no
/// string of that name.
#[derive(Debug)]
pub struct CoreEvent<T> {
    /// What happened: `event`
    pub event: T,
    /// The level that the runtime gives it: `residentLogLevel`
    pub declared_level: T,
    /// When it happened, in seconds since the epoch: `timestampUnix`
    pub timestamp: Option<i64>,
    /// `sniffed`
    pub sniffed: T,
    /// `dial_target`
    pub dial_target: T,
    /// `original_dst`
    pub original_dst: T,
    /// `outbound`
    pub outbound: T,
    /// `dialer`
    pub dialer: T,
    /// `network`
    pub network: T,
    /// `qname`
    pub qname: T,
    /// `upstream`
    pub upstream: T,
    /// `group`
    pub group: T,
    /// `group_policy`
    pub group_policy: T,
    /// `policy`
    pub policy: T,
    /// `pname`
    pub pname: T,
    /// `peer`
    pub peer: T,
    /// `dial_mode`
    pub dial_mode: T,
    /// `candidate_count`, where it is a string
    pub candidate_count: T,
    /// `candidate_count` as JSON text, whatever it is
    pub candidate_count_json: Option<T>,
    /// `error`
    pub error: T,
    /// `sniff_error`
    pub sniff_error: T,
}

impl View for CoreEvent<String> {
    type V = CoreEvent<Seq<char>>;

    open spec fn view(&self) -> CoreEvent<Seq<char>> {
        CoreEvent {
            event: self.event@,
            declared_level: self.declared_level@,
            timestamp: self.timestamp,
            sniffed: self.sniffed@,
            dial_target: self.dial_target@,
            original_dst: self.original_dst@,
            outbound: self.outbound@,
            dialer: self.dialer@,
            network: self.network@,
            qname: self.qname@,
            upstream: self.upstream@,
            group: self.group@,
            group_policy: self.group_policy@,
            policy: self.policy@,
            pname: self.pname@,
            peer: self.peer@,
            dial_mode: self.dial_mode@,
            candidate_count: self.candidate_count@,
            candidate_count_json: views::maybe_view(self.candidate_count_json),
            error: self.error@,
            sniff_error: self.sniff_error@,
        }
    }
}

/// The string under `key`, or the empty text.
pub open spec fn string_of(value: serde_json::Value, key: Seq<char>) -> Seq<char> {
    if json_strings(value).contains_key(key) {
        json_strings(value)[key]
    } else {
        seq![]
    }
}

/// When the event happened.
pub open spec fn timestamp_of(value: serde_json::Value) -> Option<i64> {
    if json_integers(value).contains_key("timestampUnix"@) {
        Some(json_integers(value)["timestampUnix"@])
    } else {
        None
    }
}

/// What the log of events reads of the event that `value` tells of.
pub open spec fn event_of(value: serde_json::Value) -> CoreEvent<Seq<char>> {
    CoreEvent {
        event: string_of(value, "event"@),
        declared_level: string_of(value, "residentLogLevel"@),
        timestamp: timestamp_of(value),
        sniffed: string_of(value, "sniffed"@),
        dial_target: string_of(value, "dial_target"@),
        original_dst: string_of(value, "original_dst"@),
        outbound: string_of(value, "outbound"@),
        dialer: string_of(value, "dialer"@),
        network: string_of(value, "network"@),
        qname: string_of(value, "qname"@),
        upstream: string_of(value, "upstream"@),
        group: string_of(value, "group"@),
        group_policy: string_of(value, "group_policy"@),
        policy: string_of(value, "policy"@),
        pname: string_of(value, "pname"@),
        peer: string_of(value, "peer"@),
        dial_mode: string_of(value, "dial_mode"@),
        candidate_count: string_of(value, "candidate_count"@),
        candidate_count_json: if json_texts(value).contains_key("candidate_count"@) {
            Some(json_texts(value)["candidate_count"@])
        } else {
            None
        },
        error: string_of(value, "error"@),
        sniff_error: string_of(value, "sniff_error"@),
    }
}

/// The string under `key`, or the empty text.
fn string_under(value: &serde_json::Value, key: &str) -> (text: String)
    ensures
        text@ == string_of(*value, key@),
{
    match member_str(value, key) {
        Some(text) => text,
        None => String::new(),
    }
}

/// When the event that `value` tells of happened, in seconds since the epoch.
pub fn event_timestamp(value: &serde_json::Value) -> (timestamp: Option<i64>)
    ensures
        timestamp == timestamp_of(*value),
{
    member_i64(value, "timestampUnix")
}

/// The event that `value` tells of as compact JSON text, which is one line.
pub fn event_json(value: &serde_json::Value) -> (text: String)
    ensures
        text@ == json_text(*value),
        !text@.contains('\n'),
{
    value_text(value)
}

impl CoreEvent<String> {
    /// What the log of events reads of the event that `value` tells of.
    pub fn from_json(value: &serde_json::Value) -> (event: Self)
        ensures
            event@ == event_of(*value),
    {
        CoreEvent {
            event: string_under(value, "event"),
            declared_level: string_under(value, "residentLogLevel"),
            timestamp: event_timestamp(value),
            sniffed: string_under(value, "sniffed"),
            dial_target: string_under(value, "dial_target"),
            original_dst: string_under(value, "original_dst"),
            outbound: string_under(value, "outbound"),
            dialer: string_under(value, "dialer"),
            network: string_under(value, "network"),
            qname: string_under(value, "qname"),
            upstream: string_under(value, "upstream"),
            group: string_under(value, "group"),
            group_policy: string_under(value, "group_policy"),
            policy: string_under(value, "policy"),
            pname: string_under(value, "pname"),
            peer: string_under(value, "peer"),
            dial_mode: string_under(value, "dial_mode"),
            candidate_count: string_under(value, "candidate_count"),
            candidate_count_json: member_text(value, "candidate_count"),
            error: string_under(value, "error"),
            sniff_error: string_under(value, "sniff_error"),
        }
    }
}

/// `text` is the string that `value` has under `key`, and is empty where it has none.
pub open spec fn is_under(value: serde_json::Value, key: Seq<char>, text: Seq<char>) -> bool {
    &&& json_strings(value).contains_key(key) ==> text == json_strings(value)[key]
    &&& !json_strings(value).contains_key(key) ==> text.len() == 0
}

/// Every member of an event is what stands under its own key, whatever else the event holds.
pub proof fn law_members_stand_under_their_keys(value: serde_json::Value)
    ensures
        ({
            let event = event_of(value);
            &&& is_under(value, "event"@, event.event)
            &&& is_under(value, "residentLogLevel"@, event.declared_level)
            &&& is_under(value, "sniffed"@, event.sniffed)
            &&& is_under(value, "dial_target"@, event.dial_target)
            &&& is_under(value, "original_dst"@, event.original_dst)
            &&& is_under(value, "outbound"@, event.outbound)
            &&& is_under(value, "dialer"@, event.dialer)
            &&& is_under(value, "network"@, event.network)
            &&& is_under(value, "qname"@, event.qname)
            &&& is_under(value, "upstream"@, event.upstream)
            &&& is_under(value, "group"@, event.group)
            &&& is_under(value, "group_policy"@, event.group_policy)
            &&& is_under(value, "policy"@, event.policy)
            &&& is_under(value, "pname"@, event.pname)
            &&& is_under(value, "peer"@, event.peer)
            &&& is_under(value, "dial_mode"@, event.dial_mode)
            &&& is_under(value, "candidate_count"@, event.candidate_count)
            &&& is_under(value, "error"@, event.error)
            &&& is_under(value, "sniff_error"@, event.sniff_error)
            &&& json_integers(value).contains_key("timestampUnix"@) ==> event.timestamp == Some(
                json_integers(value)["timestampUnix"@],
            )
            &&& !json_integers(value).contains_key("timestampUnix"@) ==> event.timestamp is None
            &&& json_texts(value).contains_key("candidate_count"@) ==> event.candidate_count_json
                == Some(json_texts(value)["candidate_count"@])
            &&& !json_texts(value).contains_key("candidate_count"@)
                ==> event.candidate_count_json is None
        }),
        timestamp_of(value) == event_of(value).timestamp,
{
}

/// Every member of an event is shown as it is.
pub proof fn law_core_event_is_shown_as_it_is(event: CoreEvent<String>)
    ensures
        event@.event == event.event@,
        event@.declared_level == event.declared_level@,
        event@.timestamp == event.timestamp,
        event@.sniffed == event.sniffed@,
        event@.dial_target == event.dial_target@,
        event@.original_dst == event.original_dst@,
        event@.outbound == event.outbound@,
        event@.dialer == event.dialer@,
        event@.network == event.network@,
        event@.qname == event.qname@,
        event@.upstream == event.upstream@,
        event@.group == event.group@,
        event@.group_policy == event.group_policy@,
        event@.policy == event.policy@,
        event@.pname == event.pname@,
        event@.peer == event.peer@,
        event@.dial_mode == event.dial_mode@,
        event@.candidate_count == event.candidate_count@,
        event@.candidate_count_json == views::maybe_view(event.candidate_count_json),
        event@.error == event.error@,
        event@.sniff_error == event.sniff_error@,
{
}

} // verus!
