//! The file that holds the number of the service's process.

use crate::decimal::{self, parse_i32, signed_decimal_text};
use crate::text::{self, trim};
use crate::utf8::{self, text_of};
use crate::views::{self, join4};
use vstd::prelude::*;

verus! {

/// The process that the file at `path` names, given what reading it came to.
pub open spec fn pid_said(path: Seq<u8>, read: Result<Seq<char>, Seq<char>>) -> Result<
    i32,
    Seq<char>,
> {
    match read {
        Err(e) => Err("failed to read pid file "@ + utf8::lossy_text(path) + ": "@ + e),
        Ok(text) => match decimal::number_read(text::trimmed(text)) {
            Err(e) => Err("failed to parse pid file "@ + utf8::lossy_text(path) + ": "@ + e.reason()),
            Ok(pid) => if pid <= 0 {
                Err(
                    "pid file "@ + utf8::lossy_text(path) + " contains non-positive pid "@
                        + decimal::signed_decimal(pid),
                )
            } else {
                Ok(pid as i32)
            },
        },
    }
}

/// The process that the file at `path` names, given what reading it came to: a positive number,
/// with nothing but white space around it.
pub fn read_pid_file(path: &[u8], read: Result<String, String>) -> (pid: Result<i32, String>)
    ensures
        views::number_view(pid) == pid_said(path@, views::text_view(read)),
{
    match read {
        Err(e) => Err(join4("failed to read pid file ", text_of(path).as_str(), ": ", e.as_str())),
        Ok(text) => match parse_i32(trim(text.as_str()).as_str()) {
            Err(e) => Err(
                join4("failed to parse pid file ", text_of(path).as_str(), ": ", e.text()),
            ),
            Ok(pid) => {
                if pid <= 0 {
                    Err(
                        join4(
                            "pid file ",
                            text_of(path).as_str(),
                            " contains non-positive pid ",
                            signed_decimal_text(pid).as_str(),
                        ),
                    )
                } else {
                    Ok(pid)
                }
            },
        },
    }
}

/// A number in decimal has no white space around it.
proof fn lemma_decimal_is_trimmed(n: nat)
    ensures
        text::trimmed(decimal::decimal(n)) == decimal::decimal(n),
{
    decimal::lemma_decimal(n);
    let text = decimal::decimal(n);
    assert(decimal::is_digit(text[0]));
    assert(decimal::is_digit(text[text.len() - 1]));
}

/// The number that a service writes to its file is the one that is read from it.
pub proof fn law_pid_is_read_back(path: Seq<u8>, pid: u32)
    requires
        0 < pid <= i32::MAX,
    ensures
        pid_said(path, Ok(decimal::decimal(pid as nat))) == Ok::<i32, Seq<char>>(pid as i32),
{
    lemma_decimal_is_trimmed(pid as nat);
    decimal::law_written_number_is_read_back(pid as int);
}

/// A process that a file names has a positive number.
pub proof fn law_pid_is_positive(path: Seq<u8>, read: Result<Seq<char>, Seq<char>>)
    ensures
        pid_said(path, read) matches Ok(pid) ==> pid > 0,
{
    if let Ok(text) = read {
        decimal::law_number_fits(text::trimmed(text));
    }
}

/// Whatever white space stands around it, a positive number that fits is the process that the file
/// names, with or without a plus sign; any other number is turned away by its value, and a number
/// that does not fit for not fitting.
pub proof fn law_positive_number_is_the_process(
    path: Seq<u8>,
    front: Seq<char>,
    digits: Seq<char>,
    back: Seq<char>,
)
    requires
        text::all_white(front),
        text::all_white(back),
        decimal::is_digits(digits),
    ensures
        ({
            let value = decimal::digits_value(digits);
            let plain = pid_said(path, Ok(front + digits + back));
            let plus = pid_said(path, Ok(front + (seq!['+'] + digits) + back));
            let minus = pid_said(path, Ok(front + (seq!['-'] + digits) + back));
            &&& plus == plain
            &&& 0 < value <= 0x7fff_ffff ==> (plain matches Ok(pid) && pid == value)
            &&& value == 0 ==> plain == Err::<i32, _>(
                "pid file "@ + utf8::lossy_text(path) + " contains non-positive pid 0"@,
            )
            &&& value > 0x7fff_ffff ==> plain == Err::<i32, _>(
                "failed to parse pid file "@ + utf8::lossy_text(path)
                    + ": number too large to fit in target type"@,
            )
            &&& 0 < value <= 0x8000_0000 ==> minus == Err::<i32, _>(
                "pid file "@ + utf8::lossy_text(path) + " contains non-positive pid -"@
                    + decimal::decimal(value as nat),
            )
            &&& value > 0x8000_0000 ==> minus == Err::<i32, _>(
                "failed to parse pid file "@ + utf8::lossy_text(path)
                    + ": number too small to fit in target type"@,
            )
        }),
{
    let value = decimal::digits_value(digits);
    let file = utf8::lossy_text(path);
    assert('0' <= digits[0] <= '9');
    assert('0' <= digits[digits.len() - 1] <= '9');
    text::law_trimming_finds_the_text(front, digits, back);
    text::law_trimming_finds_the_text(front, seq!['+'] + digits, back);
    text::law_trimming_finds_the_text(front, seq!['-'] + digits, back);
    decimal::law_digits_are_read_as_their_number(digits);
    decimal::law_decimal_text_is_the_digits(0);
    reveal_strlit("0");
    reveal_strlit(" contains non-positive pid ");
    reveal_strlit(" contains non-positive pid 0");
    reveal_strlit(" contains non-positive pid -");
    reveal_strlit(": ");
    reveal_strlit("number too large to fit in target type");
    reveal_strlit(": number too large to fit in target type");
    reveal_strlit("number too small to fit in target type");
    reveal_strlit(": number too small to fit in target type");
    assert("pid file "@ + file + " contains non-positive pid "@ + decimal::decimal(0)
        =~= "pid file "@ + file + " contains non-positive pid 0"@);
    if value > 0 {
        let size = decimal::decimal(value as nat);
        assert("pid file "@ + file + " contains non-positive pid "@ + (seq!['-'] + size)
            =~= "pid file "@ + file + " contains non-positive pid -"@ + size);
    }
    assert("failed to parse pid file "@ + file + ": "@ + "number too large to fit in target type"@
        =~= "failed to parse pid file "@ + file + ": number too large to fit in target type"@);
    assert("failed to parse pid file "@ + file + ": "@ + "number too small to fit in target type"@
        =~= "failed to parse pid file "@ + file + ": number too small to fit in target type"@);
}

/// A file that cannot be read names no process, and neither does one that holds, white space aside,
/// nothing or something that is no number.
pub proof fn law_anything_else_names_no_process(
    path: Seq<u8>,
    text: Seq<char>,
    inner: Seq<char>,
    e: Seq<char>,
)
    requires
        inner == text::trimmed(text),
    ensures
        pid_said(path, Err(e)) == Err::<i32, _>(
            "failed to read pid file "@ + utf8::lossy_text(path) + ": "@ + e,
        ),
        inner.len() == 0 ==> pid_said(path, Ok(text)) == Err::<i32, _>(
            "failed to parse pid file "@ + utf8::lossy_text(path) + ": "@
                + "cannot parse integer from empty string"@,
        ),
        pid_said(path, Ok(text)) is Ok ==> decimal::is_digits(inner) || inner.len() > 1 && inner[0]
            == '+' && decimal::is_digits(inner.drop_first()),
        decimal::number_read(inner) matches Err(problem) ==> pid_said(path, Ok(text)) == Err::<
            i32,
            _,
        >("failed to parse pid file "@ + utf8::lossy_text(path) + ": "@ + problem.reason()),
{
    decimal::law_nothing_else_is_a_number(inner);
    if pid_said(path, Ok(text)) is Ok && inner[0] == '-' {
        decimal::lemma_negative_is_not_positive(inner.drop_first());
    }
}

} // verus!
