//! Text, numbers and paths, held against the standard library.

use dae_daemon::decimal::{
    decimal_text, parse_i32, signed_decimal_text, zero_padded_text, NumberError,
};
use dae_daemon::paths::{
    file_name_of, join_entry, parent_of, resident_config_asset_dir,
    resident_config_geodata_asset_dirs,
};
use dae_daemon::text::{
    char_is_white, replace_char, text_contains, text_ends_with, text_eq, text_has_char,
    to_ascii_lower, trim, trim_leading_newlines,
};
use dae_daemon::utf8::text_of;
use std::path::Path;

const TEXTS: [&str; 14] = [
    "",
    " ",
    "\n",
    "\n\n a \n",
    "abc",
    "ABC xyz",
    "\u{a0}é\u{2003}",
    "\u{3000}Ä\u{85}",
    "_failed",
    "x_failed",
    "tcp_route_chosen",
    "\"quoted\"",
    "ÀÉ\u{1f600}Z",
    "\u{200b}zero width\u{200b}",
];

#[test]
fn white_space_is_that_of_the_standard_library() {
    for c in '\0'..=char::MAX {
        assert_eq!(char_is_white(c), c.is_whitespace(), "{c:?}");
    }
}

#[test]
fn text_is_treated_as_by_the_standard_library() {
    for text in TEXTS {
        assert_eq!(trim(text), text.trim());
        assert_eq!(trim_leading_newlines(text), text.trim_start_matches('\n'));
        assert_eq!(to_ascii_lower(text), text.to_ascii_lowercase());
        assert_eq!(replace_char(text, '"', '\''), text.replace('"', "'"));
        for c in [' ', '"', 'Z', '\u{1f600}'] {
            assert_eq!(text_has_char(text, c), text.contains(c));
        }
        for part in TEXTS {
            assert_eq!(text_eq(text, part), text == part);
            assert_eq!(text_contains(text, part), text.contains(part), "{text:?} {part:?}");
            assert_eq!(text_ends_with(text, part), text.ends_with(part), "{text:?} {part:?}");
        }
    }
    assert!(text_contains("aab", "ab"));
    assert!(text_contains("ab", "ab"));
    assert!(!text_contains("a", "ab"));
}

#[test]
fn numbers_are_written_as_by_the_standard_library() {
    for n in [0u64, 1, 9, 10, 99, 100, 1_234_567_890, u64::MAX] {
        assert_eq!(decimal_text(n), format!("{n}"));
    }
    for n in [0i32, -1, 7, 42, -42, 999, 10_000, 123_456, i32::MAX, i32::MIN, -7] {
        assert_eq!(signed_decimal_text(n), format!("{n}"));
        assert_eq!(zero_padded_text(n, 0), format!("{n}"));
        assert_eq!(zero_padded_text(n, 2), format!("{n:02}"));
        assert_eq!(zero_padded_text(n, 4), format!("{n:04}"));
    }
}

#[test]
fn numbers_are_read_as_by_the_standard_library() {
    for text in [
        "", "+", "-", "0", "+0", "-0", "7", "007", "+42", "-42", "2147483647", "2147483648",
        "-2147483648", "-2147483649", "99999999999", "9999999999x", "x", "1x", "--1", "+-1", " 1",
        "1 ", "1_000", "12.5", "\u{664}", "é", "+é", "00000000000000000000012",
    ] {
        match (parse_i32(text), text.parse::<i32>()) {
            (Ok(n), Ok(m)) => assert_eq!(n, m),
            (Err(e), Err(f)) => assert_eq!(e.text(), f.to_string(), "{text:?}"),
            (read, expected) => panic!("{text:?}: {read:?} {expected:?}"),
        }
    }
}

#[test]
fn every_way_of_being_no_number() {
    assert_eq!(parse_i32(""), Err(NumberError::Empty));
    assert_eq!(parse_i32("-"), Err(NumberError::InvalidDigit));
    assert_eq!(parse_i32("2147483648"), Err(NumberError::TooLarge));
    assert_eq!(parse_i32("-2147483649"), Err(NumberError::TooSmall));
    assert_eq!(parse_i32("2147483648x"), Err(NumberError::TooLarge));
}

#[test]
fn written_numbers_are_read_back() {
    for n in [0i32, 1, -1, 31_337, i32::MAX, i32::MIN] {
        assert_eq!(parse_i32(&signed_decimal_text(n)), Ok(n));
    }
    assert_ne!(decimal_text(11), decimal_text(1));
}

/// All paths of up to `len` characters out of these.
fn paths_up_to(len: usize) -> Vec<String> {
    let mut all = vec![String::new()];
    let mut last = all.clone();
    for _ in 0..len {
        let mut next = Vec::new();
        for path in &last {
            for c in ["/", ".", "a"] {
                next.push(format!("{path}{c}"));
            }
        }
        all.extend(next.iter().cloned());
        last = next;
    }
    all
}

#[test]
fn paths_are_taken_apart_as_by_the_standard_library() {
    for path in paths_up_to(7) {
        let std_path = Path::new(&path);
        assert_eq!(
            parent_of(path.as_bytes()).map(|dir| text_of(&dir)),
            std_path.parent().map(|dir| dir.to_str().unwrap().to_owned()),
            "{path:?}"
        );
        assert_eq!(
            file_name_of(path.as_bytes()).map(|name| text_of(&name)),
            std_path.file_name().map(|name| name.to_str().unwrap().to_owned()),
            "{path:?}"
        );
        let joined = std_path.join(".x");
        assert_eq!(text_of(&join_entry(path.as_bytes(), b".x")), joined.to_str().unwrap());
    }
}

/// Where the geodata of a configuration lies, by the paths of the standard library.
fn std_asset_dir(config: &Path) -> String {
    let dir = if config.extension().and_then(|extension| extension.to_str()) == Some("dae") {
        config
            .parent()
            .filter(|parent| !parent.as_os_str().is_empty())
            .unwrap_or_else(|| Path::new("."))
    } else {
        config
    };
    dir.to_str().unwrap().to_owned()
}

#[test]
fn geodata_lies_beside_the_config_file() {
    for (config, dir) in [
        ("/etc/dae/config.dae", "/etc/dae"),
        ("config.dae", "."),
        ("./config.dae", "."),
        ("/config.dae", "/"),
        ("/etc/dae", "/etc/dae"),
        ("/etc/dae/", "/etc/dae/"),
        ("/etc/dae/config.toml", "/etc/dae/config.toml"),
        ("/etc/dae/.dae", "/etc/dae/.dae"),
        ("/etc/dae/a.dae/.", "/etc/dae"),
        ("/etc/dae//a.dae//", "/etc/dae"),
        ("x/..dae", "x"),
        ("x/a.b.dae", "x"),
        ("x/a.daex", "x/a.daex"),
        ("x/a.DAE", "x/a.DAE"),
        ("", ""),
        ("/", "/"),
    ] {
        assert_eq!(text_of(&resident_config_asset_dir(config.as_bytes())), dir, "{config}");
        assert_eq!(std_asset_dir(Path::new(config)), dir, "{config}");
        assert_eq!(
            resident_config_geodata_asset_dirs(config.as_bytes()),
            vec![dir.as_bytes().to_vec()]
        );
    }
    for path in paths_up_to(5) {
        for config in [format!("{path}.dae"), format!("{path}.dae/"), format!("{path}/b.dae/.")] {
            assert_eq!(
                text_of(&resident_config_asset_dir(config.as_bytes())),
                std_asset_dir(Path::new(&config)),
                "{config}"
            );
        }
    }
}

#[test]
fn entries_lie_in_their_directory() {
    for dir in ["", "/", "a", "/a/b", "a/./b", "../x"] {
        let entry = join_entry(dir.as_bytes(), b"leaf");
        assert_eq!(file_name_of(&entry), Some(b"leaf".to_vec()));
        assert_eq!(parent_of(&entry), Some(dir.as_bytes().to_vec()));
    }
}

#[test]
fn bytes_that_are_no_text_are_shown_with_replacements() {
    for bytes in [
        &b"plain"[..],
        "wä\u{1f600}".as_bytes(),
        b"\xff",
        b"a\xe2\x82b",
        b"\xf0\x9f\x98",
        b"\xed\xa0\x80",
    ] {
        assert_eq!(text_of(bytes), String::from_utf8_lossy(bytes));
    }
}
