//! The log of events.

use dae_daemon::event_log::{
    decide_core_event, event_log_decision, event_log_line, install_core_event_log_sink,
    log_core_event, shows_time, sink_core_event, EventLog, SinkAction, EVENT_LOG_MAX_BYTES,
    EVENT_LOG_MAX_ENTRIES,
};
use dae_daemon::events::{event_json, event_timestamp, CoreEvent};
use dae_daemon::levels::{
    resident_core_event_level, resident_core_event_level_of, resident_core_log_level_enabled,
};
use dae_daemon::logfmt::{
    core_event_message, format_unix_local, render_core_event_logfmt, LocalTime,
};
use serde_json::{Number, Value};

/// A JSON object of these members.
fn object(members: &[(&str, Value)]) -> Value {
    let mut map = serde_json::Map::new();
    for (key, value) in members {
        map.insert((*key).to_owned(), value.clone());
    }
    Value::Object(map)
}

fn text(value: &str) -> Value {
    Value::String(value.to_owned())
}

/// A JSON object of strings.
fn strings(members: &[(&str, &str)]) -> Value {
    let members: Vec<(&str, Value)> =
        members.iter().map(|(key, value)| (*key, text(value))).collect();
    object(&members)
}

fn event(members: &[(&str, &str)]) -> CoreEvent<String> {
    CoreEvent::from_json(&strings(members))
}

const NOON: LocalTime =
    LocalTime { year: 126, month: 0, day: 9, hour: 12, minute: 5, second: 7 };

#[test]
fn events_are_read_from_json() {
    let value = object(&[
        ("event", text("tcp_route_chosen")),
        ("residentLogLevel", text("WARN")),
        ("timestampUnix", Value::Number(Number::from(1_700_000_000i64))),
        ("outbound", Value::Null),
        ("dialer", Value::Bool(true)),
        ("candidate_count", Value::Number(Number::from(3u8))),
        ("error", text("it \"broke\"")),
    ]);
    let read = CoreEvent::from_json(&value);
    assert_eq!(read.event, "tcp_route_chosen");
    assert_eq!(read.declared_level, "WARN");
    assert_eq!(read.timestamp, Some(1_700_000_000));
    assert_eq!(read.outbound, "");
    assert_eq!(read.dialer, "");
    assert_eq!(read.candidate_count, "");
    assert_eq!(read.candidate_count_json, Some("3".to_owned()));
    assert_eq!(read.error, "it \"broke\"");
    assert_eq!(event_timestamp(&value), Some(1_700_000_000));
    assert_eq!(event_json(&value), value.to_string());
}

#[test]
fn every_member_is_read_under_its_own_name() {
    let names = [
        "event", "residentLogLevel", "sniffed", "dial_target", "original_dst", "outbound",
        "dialer", "network", "qname", "upstream", "group", "group_policy", "policy", "pname",
        "peer", "dial_mode", "candidate_count", "error", "sniff_error",
    ];
    for name in names {
        let read = event(&[(name, "value")]);
        let fields = [
            read.event, read.declared_level, read.sniffed, read.dial_target, read.original_dst,
            read.outbound, read.dialer, read.network, read.qname, read.upstream, read.group,
            read.group_policy, read.policy, read.pname, read.peer, read.dial_mode,
            read.candidate_count, read.error, read.sniff_error,
        ];
        for (other, field) in names.iter().zip(fields) {
            assert_eq!(field, if *other == name { "value" } else { "" });
        }
    }
}

#[test]
fn timestamps_are_integers_or_nothing() {
    let at = |value: Value| event_timestamp(&object(&[("timestampUnix", value)]));
    assert_eq!(at(Value::Number(Number::from(-5i64))), Some(-5));
    assert_eq!(at(Value::Number(Number::from(u64::MAX))), None);
    assert_eq!(at(Value::Number(Number::from_f64(1.0).unwrap())), None);
    assert_eq!(at(text("7")), None);
    assert_eq!(event_timestamp(&Value::Null), None);
    assert_eq!(event_timestamp(&Value::Array(vec![Value::Null])), None);
    assert_eq!(CoreEvent::from_json(&text("event")).event, "");
}

#[test]
fn levels_by_name() {
    for name in [
        "tcp_route_chosen",
        "udp_route_chosen",
        "dns_path_chosen",
        "udp_session_started",
        "udp_session_stopped",
        "dial_failed",
        "_failed",
        "xroute_chosenx",
    ] {
        assert_eq!(resident_core_event_level(name), "info", "{name}");
    }
    for name in ["", "packet", "failed_dial", "dial_failed_twice", "route_chose", "session_start"] {
        assert_eq!(resident_core_event_level(name), "debug", "{name}");
    }
}

#[test]
fn levels_that_are_declared_come_first() {
    for (declared, level) in [
        ("error", "error"),
        ("ERROR", "error"),
        ("warn", "warn"),
        ("Warning", "warn"),
        ("info", "info"),
        ("Debug", "debug"),
        ("trace", "trace"),
        ("fatal", "info"),
        ("", "info"),
        (" info", "info"),
    ] {
        let read = event(&[("event", "x_failed"), ("residentLogLevel", declared)]);
        assert_eq!(resident_core_event_level_of(&read), level, "{declared}");
    }
    assert_eq!(resident_core_event_level_of(&event(&[("residentLogLevel", "fatal")])), "debug");
}

#[test]
fn levels_are_ordered() {
    let order = ["error", "warn", "info", "debug", "trace"];
    for (i, configured) in order.iter().enumerate() {
        for (j, level) in order.iter().enumerate() {
            assert_eq!(resident_core_log_level_enabled(configured, level), j <= i);
        }
        assert_eq!(resident_core_log_level_enabled(configured, "loud"), 2 <= i);
        assert_eq!(resident_core_log_level_enabled("loud", configured), i <= 2);
    }
    assert!(resident_core_log_level_enabled("INFO", "info"));
    assert!(!resident_core_log_level_enabled("", "debug"));
}

#[test]
fn times_are_written_with_a_space() {
    assert_eq!(format_unix_local(&NOON), "2026-01-09 12:05:07");
    let early = LocalTime { year: -1_895, month: 11, day: 31, hour: 0, minute: 0, second: 60 };
    assert_eq!(format_unix_local(&early), "0005-12-31 00:00:60");
    let zero = LocalTime { year: 0, month: 0, day: 0, hour: 0, minute: 0, second: 0 };
    assert_eq!(format_unix_local(&zero), "1900-01-00 00:00:00");
}

#[test]
fn messages_say_what_happened() {
    for (members, message) in [
        (
            &[
                ("event", "tcp_route_chosen"),
                ("network", "tcp4"),
                ("sniffed", "example.org"),
                ("dial_target", "1.2.3.4:443"),
                ("outbound", "proxy"),
                ("dialer", "node1"),
            ][..],
            "tcp4 example.org -> proxy via node1",
        ),
        (
            &[("event", "tcp_route_chosen"), ("network", "tcp6"), ("dial_target", "t")],
            "tcp6 t -> ?",
        ),
        (
            &[("event", "udp_route_chosen"), ("original_dst", "o"), ("outbound", "direct")],
            "udp o -> direct",
        ),
        (&[("event", "udp_route_chosen"), ("dialer", "d")], "udp  -> ? via d"),
        (
            &[("event", "dns_path_chosen"), ("qname", "q"), ("upstream", "u"), ("dialer", "d")],
            "dns q -> upstream=u via d",
        ),
        (
            &[("event", "dns_bind_query_finished"), ("qname", "q"), ("upstream", "u")],
            "dns q -> upstream=u",
        ),
        (
            &[("event", "udp_session_started"), ("sniffed", "s"), ("dialer", "d")],
            "udp session started s via d",
        ),
        (
            &[("event", "udp_session_stopped"), ("sniffed", "s"), ("dialer", "d")],
            "udp session stopped s",
        ),
        (
            &[
                ("event", "resident_health_checker_started"),
                ("group", "g"),
                ("group_policy", "p"),
                ("candidate_count", "4"),
            ],
            "health checker started group=g policy=p candidates=\"4\"",
        ),
        (
            &[("event", "resident_health_checker_started")],
            "health checker started group= policy= candidates=-",
        ),
        (
            &[("event", "tcp_worker_started"), ("dial_mode", "domain")],
            "tcp worker started (dial_mode=domain)",
        ),
        (&[("event", "udp_session_manager_started")], "udp session manager started"),
        (&[("event", "resident_health_scheduler_started")], "health scheduler started"),
        (&[("event", "tcp_dial_failed"), ("error", "refused")], "tcp_dial_failed: refused"),
        (&[("event", "whatever"), ("error", "refused")], "whatever"),
    ] {
        let read = event(members);
        assert_eq!(core_event_message(&read, &read.event), message);
    }
    let counted = CoreEvent::from_json(&object(&[
        ("event", text("resident_health_checker_started")),
        ("candidate_count", Value::Number(Number::from(12u8))),
    ]));
    assert_eq!(
        core_event_message(&counted, &counted.event),
        "health checker started group= policy= candidates=12"
    );
}

#[test]
fn lines_hold_their_fields_in_order() {
    let value = object(&[
        ("event", text("tcp_route_chosen")),
        ("timestampUnix", Value::Number(Number::from(1u8))),
        ("network", text("tcp4")),
        ("sniffed", text("example.org")),
        ("dial_target", text("null")),
        ("outbound", text("my proxy")),
        ("dialer", text("no\"de")),
        ("group", text("g")),
        ("policy", text("p")),
        ("pname", text("curl")),
        ("peer", text("10.0.0.2:1")),
        ("original_dst", text("1.2.3.4:443")),
        ("candidate_count", Value::Number(Number::from(2u8))),
        ("error", text("a b")),
        ("sniff_error", text("")),
    ]);
    let read = CoreEvent::from_json(&value);
    assert_eq!(
        render_core_event_logfmt(&read, &read.event, "info", NOON),
        "time=\"2026-01-09 12:05:07\" level=info event=tcp_route_chosen \
         msg=\"tcp4 example.org -> my proxy via no'de\" outbound=\"my proxy\" dialer=\"no'de\" \
         sniffed=example.org group=g policy=p pname=curl peer=10.0.0.2:1 \
         original_dst=1.2.3.4:443 network=tcp4 error=\"a b\""
    );
    let bare = event(&[]);
    assert_eq!(
        render_core_event_logfmt(&bare, "", "debug", NOON),
        "time=\"-\" level=debug event= msg=\"\" outbound=- dialer=-"
    );
    let nothing = event(&[("outbound", "null"), ("candidate_count", "5"), ("peer", "null")]);
    assert_eq!(
        render_core_event_logfmt(&nothing, "x", "debug", NOON),
        "time=\"-\" level=debug event=x msg=\"x\" outbound=null dialer=- candidate_count=5"
    );
}

#[test]
fn lines_have_the_keys_that_are_looked_for() {
    for members in [
        &[][..],
        &[("event", "packet")],
        &[("outbound", "direct")],
        &[("dialer", "node 1")],
        &[("outbound", "\n"), ("dialer", "\"")],
    ] {
        let read = event(members);
        let line = render_core_event_logfmt(&read, &read.event, "info", NOON);
        for key in ["time=", "level=", "msg=", "outbound=", "dialer="] {
            assert!(line.contains(key), "{key} {line}");
        }
    }
}

#[test]
fn carriage_returns_are_left_as_they_are() {
    let read = event(&[("outbound", "a\rb"), ("error", "\r")]);
    assert_eq!(
        render_core_event_logfmt(&read, "x\ry", "info", NOON),
        "time=\"-\" level=info event=x\ry msg=\"x\ry\" outbound=a\rb dialer=- error=\r"
    );
}

#[test]
fn lines_break_nowhere() {
    let torn = event(&[
        ("sniffed", "a\nb"),
        ("outbound", "\n"),
        ("dialer", "x\r\ny"),
        ("error", "no\nway\n"),
        ("peer", "\"\n\""),
        ("network", "null\n"),
    ]);
    assert_eq!(
        render_core_event_logfmt(&torn, "torn\nname_failed", "in\rfo", NOON),
        "time=\"-\" level=in\rfo event=torn name_failed msg=\"torn name_failed: no way \" \
         outbound=\" \" dialer=\"x\r y\" sniffed=\"a b\" peer=\"' '\" network=\"null \" \
         error=\"no way \""
    );
}

/// The keys and values of a line, as one who reads it finds them.
fn read_line(line: &str) -> Vec<(String, String)> {
    let mut rest = line;
    let mut fields = Vec::new();
    while let Some((key, behind)) = rest.split_once('=') {
        let (value, behind) = match behind.strip_prefix('"') {
            Some(body) => {
                let (value, behind) = body.split_once('"').unwrap();
                (value, behind.strip_prefix(' ').unwrap_or(behind))
            }
            None => behind.split_once(' ').unwrap_or((behind, "")),
        };
        fields.push((key.to_owned(), value.to_owned()));
        rest = behind;
    }
    assert_eq!(rest, "");
    fields
}

#[test]
fn lines_are_read_back() {
    let value = strings(&[
        ("event", "dial_failed"),
        ("outbound", "a=b c"),
        ("dialer", "\""),
        ("sniffed", " "),
        ("error", "he said \"no\" level=error"),
        ("peer", "x=\"y\""),
    ]);
    let log = sink("trace", "logfmt");
    let line = log_core_event(&log, &value, NOON).unwrap();
    let fields = read_line(line.strip_suffix('\n').unwrap());
    let expected = [
        ("time", "-"),
        ("level", "info"),
        ("event", "dial_failed"),
        ("msg", "dial_failed: he said 'no' level=error"),
        ("outbound", "a=b c"),
        ("dialer", "'"),
        ("sniffed", " "),
        ("peer", "x='y'"),
        ("error", "he said 'no' level=error"),
    ];
    let expected: Vec<(String, String)> =
        expected.iter().map(|(key, value)| (key.to_string(), value.to_string())).collect();
    assert_eq!(fields, expected);
}

fn sink(level: &str, style: &str) -> EventLog<String, Vec<u8>> {
    install_core_event_log_sink(Some(b"/var/log/dae.log"), Some(level), Some(style)).unwrap()
}

#[test]
fn event_log_is_set_up_from_its_settings() {
    assert!(install_core_event_log_sink(None, Some("debug"), Some("json")).is_none());
    let log = install_core_event_log_sink(Some(b"/l"), None, None).unwrap();
    assert_eq!(log.path, b"/l");
    assert_eq!((log.level.as_str(), log.style.as_str()), ("info", "logfmt"));
    for (setting, level) in
        [("", "info"), (" \t\n", "info"), (" DEBUG\n", "debug"), ("Trace", "trace"), ("x", "x")]
    {
        assert_eq!(sink(setting, "").level, level);
    }
    assert_eq!(sink("info", " JSON").style, " JSON");
}

#[test]
fn level_settings_are_forgiving() {
    for level in ["warn", " warn", "warn ", "WARN", "WaRn"] {
        assert_eq!(sink(level, "logfmt").level, "warn");
    }
}

#[test]
fn decisions_and_lines_agree() {
    for configured in ["error", "warn", "info", "debug", "trace", "loud"] {
        for declared in ["error", "warning", "info", "debug", "trace", ""] {
            let value = strings(&[("event", "packet"), ("residentLogLevel", declared)]);
            let read = CoreEvent::from_json(&value);
            let decision = decide_core_event(configured, &value);
            assert_eq!(
                decision.level.as_deref(),
                Some(resident_core_event_level_of(&read))
            );
            assert_eq!(
                decision.persist,
                resident_core_log_level_enabled(configured, decision.level.as_deref().unwrap())
            );
            assert_eq!((decision.max_entries, decision.max_bytes), (10_000, 50 * 1024 * 1024));
            assert_eq!(EVENT_LOG_MAX_ENTRIES, 10_000);
            assert_eq!(EVENT_LOG_MAX_BYTES, 50 * 1024 * 1024);
            assert_eq!(event_log_decision(configured, &read).persist, decision.persist);
            for style in ["json", "logfmt"] {
                let log = sink(configured, style);
                assert_eq!(log_core_event(&log, &value, NOON).is_some(), decision.persist);
            }
        }
    }
}

#[test]
fn events_are_logged_in_the_style_that_is_set() {
    let value = strings(&[("event", "dial_failed"), ("error", "no\nway")]);
    let json = log_core_event(&sink("info", "json"), &value, NOON).unwrap();
    assert_eq!(json, format!("{value}\n"));
    assert_eq!(json, "{\"error\":\"no\\nway\",\"event\":\"dial_failed\"}\n");
    assert_eq!(json.matches('\n').count(), 1);
    for style in ["logfmt", "JSON", "", "json "] {
        assert_eq!(
            log_core_event(&sink("info", style), &value, NOON).unwrap(),
            "time=\"-\" level=info event=dial_failed msg=\"dial_failed: no way\" \
             outbound=- dialer=- error=\"no way\"\n"
        );
    }
    let read = CoreEvent::from_json(&value);
    assert_eq!(
        event_log_line(&sink("info", "json"), &read, "{}", NOON),
        Some("{}\n".to_owned())
    );
    assert_eq!(event_log_line(&sink("error", "json"), &read, "{}", NOON), None);
}

#[test]
fn kept_events_are_appended_once_the_log_is_open() {
    let log = sink("info", "logfmt");
    let kept = strings(&[("event", "dial_failed")]);
    let other = strings(&[("event", "packet")]);

    let run = sink_core_event(&log, false, &kept, NOON);
    assert!(matches!(run.action(), SinkAction::Open(path) if path == b"/var/log/dae.log"));
    let run = run.tell(true);
    assert!(matches!(
        run.action(),
        SinkAction::Append(line)
            if line
                == "time=\"-\" level=info event=dial_failed msg=\"dial_failed: \" \
                    outbound=- dialer=-\n"
    ));
    assert!(matches!(run.tell(false).action(), SinkAction::Return { open: true }));

    let run = sink_core_event(&log, true, &kept, NOON);
    assert!(matches!(run.action(), SinkAction::Append(_)));
    assert!(matches!(run.tell(true).tell(false).action(), SinkAction::Return { open: true }));

    let run = sink_core_event(&log, true, &other, NOON);
    assert!(matches!(run.action(), SinkAction::Return { open: true }));
    let run = sink_core_event(&log, false, &other, NOON);
    assert!(matches!(run.action(), SinkAction::Open(_)));
    assert!(matches!(run.tell(true).action(), SinkAction::Return { open: true }));

    let run = sink_core_event(&log, false, &kept, NOON).tell(false);
    assert!(matches!(run.action(), SinkAction::Return { open: false }));
}

#[test]
fn time_matters_only_where_it_is_shown() {
    let dated = |name: &str| {
        object(&[
            ("event", text(name)),
            ("timestampUnix", Value::Number(Number::from(1_700_000_000i64))),
        ])
    };
    let later = LocalTime { hour: 13, ..NOON };
    for (level, style, value, shows) in [
        ("info", "logfmt", dated("dial_failed"), true),
        ("info", "json", dated("dial_failed"), false),
        ("info", "logfmt", dated("packet"), false),
        ("debug", "logfmt", dated("packet"), true),
        ("info", "logfmt", strings(&[("event", "dial_failed")]), false),
    ] {
        let log = sink(level, style);
        assert_eq!(shows_time(&log, &value), shows);
        assert_eq!(
            log_core_event(&log, &value, NOON) == log_core_event(&log, &value, later),
            !shows
        );
    }
    assert_eq!(
        log_core_event(&sink("info", "logfmt"), &dated("dial_failed"), NOON).unwrap(),
        "time=\"2026-01-09 12:05:07\" level=info event=dial_failed msg=\"dial_failed: \" \
         outbound=- dialer=-\n"
    );
}
