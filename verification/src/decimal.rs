//! Whole numbers as decimal text, and back.

use crate::text::chars_of;
use vstd::prelude::*;

verus! {

/// The character of one decimal digit.
pub open spec fn digit_char(digit: nat) -> char {
    ('0' as int + digit) as char
}

/// `n` in decimal, without leading zeros.
pub open spec fn decimal(n: nat) -> Seq<char>
    decreases n,
{
    if n < 10 {
        seq![digit_char(n)]
    } else {
        decimal(n / 10).push(digit_char(n % 10))
    }
}

/// `n` in decimal, with a leading minus sign where it is negative.
pub open spec fn signed_decimal(n: int) -> Seq<char> {
    if n < 0 {
        seq!['-'] + decimal((-n) as nat)
    } else {
        decimal(n as nat)
    }
}

/// As many zeros as bring a text of `len` characters to `width`.
pub open spec fn zeros_to(len: nat, width: nat) -> Seq<char> {
    Seq::new(
        if len < width {
            (width - len) as nat
        } else {
            0
        },
        |i: int| '0',
    )
}

/// `n` in decimal, brought to `width` characters by zeros behind its sign.
pub open spec fn zero_padded(n: int, width: nat) -> Seq<char> {
    if n < 0 {
        let digits = decimal((-n) as nat);
        seq!['-'] + zeros_to(digits.len() + 1, width) + digits
    } else {
        let digits = decimal(n as nat);
        zeros_to(digits.len(), width) + digits
    }
}

/// Appends `n` in decimal.
pub fn push_decimal(text: &mut String, n: u64)
    ensures
        final(text)@ == old(text)@ + decimal(n as nat),
    decreases n,
{
    if n >= 10 {
        push_decimal(text, n / 10);
    }
    let digit: u8 = (n % 10) as u8;
    text.push((48 + digit) as char);
    assert(final(text)@ =~= old(text)@ + decimal(n as nat));
}

/// `n` in decimal.
pub fn decimal_text(n: u64) -> (text: String)
    ensures
        text@ == decimal(n as nat),
{
    let mut text = String::new();
    push_decimal(&mut text, n);
    assert(text@ =~= decimal(n as nat));
    text
}

/// The distance of `n` from zero.
fn magnitude(n: i32) -> (size: u64)
    ensures
        size == (if n < 0 {
            -n
        } else {
            n as int
        }),
{
    let wide: i64 = n as i64;
    if wide < 0 {
        (0 - wide) as u64
    } else {
        wide as u64
    }
}

/// `n` in decimal, with a leading minus sign where it is negative.
pub fn signed_decimal_text(n: i32) -> (text: String)
    ensures
        text@ == signed_decimal(n as int),
{
    let mut text = String::new();
    if n < 0 {
        text.push('-');
    }
    push_decimal(&mut text, magnitude(n));
    assert(text@ =~= signed_decimal(n as int));
    text
}

/// `n` in decimal, brought to `width` characters by zeros behind its sign.
pub fn zero_padded_text(n: i32, width: usize) -> (text: String)
    requires
        width < usize::MAX,
    ensures
        text@ == zero_padded(n as int, width as nat),
{
    let digits = decimal_text(magnitude(n));
    let mut text = String::new();
    let mut len: usize = digits.as_str().unicode_len();
    if n < 0 {
        text.push('-');
        if len < width {
            len += 1;
        }
    }
    let ghost sign = text@;
    let ghost start = len;
    while len < width
        invariant
            text@ == sign + Seq::new((len - start) as nat, |i: int| '0'),
            start <= len,
            len <= width || len == start,
        decreases width - len,
    {
        text.push('0');
        len += 1;
        assert(text@ =~= sign + Seq::new((len - start) as nat, |i: int| '0'));
    }
    text.append(digits.as_str());
    assert(text@ =~= zero_padded(n as int, width as nat));
    text
}

/// `c` is one of the digits `0` to `9`.
pub open spec fn is_digit(c: char) -> bool {
    '0' <= c <= '9'
}

/// The number that a digit stands for.
pub open spec fn digit_value(c: char) -> int {
    c as int - '0' as int
}

/// Why a text is no number.
#[derive(Clone, Copy, Debug, PartialEq, Eq, Structural)]
pub enum NumberError {
    /// There is no character at all.
    Empty,
    /// A character is no digit, or a sign stands alone.
    InvalidDigit,
    /// The number is greater than the greatest that fits.
    TooLarge,
    /// The number is less than the least that fits.
    TooSmall,
}

impl NumberError {
    /// The reason in words.
    pub open spec fn reason(self) -> Seq<char> {
        match self {
            NumberError::Empty => "cannot parse integer from empty string"@,
            NumberError::InvalidDigit => "invalid digit found in string"@,
            NumberError::TooLarge => "number too large to fit in target type"@,
            NumberError::TooSmall => "number too small to fit in target type"@,
        }
    }

    /// The reason in words.
    pub fn text(self) -> (text: &'static str)
        ensures
            text@ == self.reason(),
    {
        match self {
            NumberError::Empty => "cannot parse integer from empty string",
            NumberError::InvalidDigit => "invalid digit found in string",
            NumberError::TooLarge => "number too large to fit in target type",
            NumberError::TooSmall => "number too small to fit in target type",
        }
    }
}

/// What the digits add to `read`, the number that the characters before them make, up to the
/// first character at which the text stops being a number that fits.
pub open spec fn digits_read(negative: bool, read: int, digits: Seq<char>) -> Result<
    int,
    NumberError,
>
    decreases digits.len(),
{
    if digits.len() == 0 {
        Ok(read)
    } else if !is_digit(digits[0]) {
        Err(NumberError::InvalidDigit)
    } else if negative {
        let next = read * 10 - digit_value(digits[0]);
        if next < i32::MIN {
            Err(NumberError::TooSmall)
        } else {
            digits_read(negative, next, digits.drop_first())
        }
    } else {
        let next = read * 10 + digit_value(digits[0]);
        if next > i32::MAX {
            Err(NumberError::TooLarge)
        } else {
            digits_read(negative, next, digits.drop_first())
        }
    }
}

/// The number that `text` writes as an optional sign and digits.
pub open spec fn number_read(text: Seq<char>) -> Result<int, NumberError> {
    if text.len() == 0 {
        Err(NumberError::Empty)
    } else if text[0] == '+' || text[0] == '-' {
        if text.len() == 1 {
            Err(NumberError::InvalidDigit)
        } else {
            digits_read(text[0] == '-', 0, text.drop_first())
        }
    } else {
        digits_read(false, 0, text)
    }
}

/// A number read by machine arithmetic says the same as one read without bounds.
pub open spec fn same_number(
    read: Result<i32, NumberError>,
    meant: Result<int, NumberError>,
) -> bool {
    match (read, meant) {
        (Ok(n), Ok(m)) => n == m,
        (Err(e), Err(f)) => e == f,
        _ => false,
    }
}

/// Reads `text` as an optional sign and digits.
pub fn parse_i32(text: &str) -> (read: Result<i32, NumberError>)
    ensures
        same_number(read, number_read(text@)),
{
    let chars = chars_of(text);
    if chars.len() == 0 {
        return Err(NumberError::Empty);
    }
    let signed: bool = chars[0] == '+' || chars[0] == '-';
    let negative: bool = chars[0] == '-';
    if signed && chars.len() == 1 {
        return Err(NumberError::InvalidDigit);
    }
    let mut i: usize = if signed {
        1
    } else {
        0
    };
    let mut value: i64 = 0;
    proof {
        if signed {
            assert(text@.skip(1) =~= text@.drop_first());
        } else {
            assert(text@.skip(0) =~= text@);
        }
    }
    while i < chars.len()
        invariant
            i <= chars.len(),
            chars@ == text@,
            i32::MIN <= value <= i32::MAX,
            negative ==> value <= 0,
            !negative ==> value >= 0,
            number_read(text@) == digits_read(negative, value as int, text@.skip(i as int)),
        decreases chars.len() - i,
    {
        let c = chars[i];
        assert(text@.skip(i as int).drop_first() =~= text@.skip(i + 1));
        if c < '0' || c > '9' {
            return Err(NumberError::InvalidDigit);
        }
        let digit: i64 = c as i64 - 48;
        if negative {
            value = value * 10 - digit;
            if value < i32::MIN as i64 {
                return Err(NumberError::TooSmall);
            }
        } else {
            value = value * 10 + digit;
            if value > i32::MAX as i64 {
                return Err(NumberError::TooLarge);
            }
        }
        i += 1;
    }
    Ok(value as i32)
}

/// The number that digits alone write.
pub open spec fn digits_value(digits: Seq<char>) -> int
    decreases digits.len(),
{
    if digits.len() == 0 {
        0
    } else {
        digits_value(digits.drop_last()) * 10 + digit_value(digits.last())
    }
}

/// The decimal text of a number is not empty, holds only digits, and writes that number.
pub proof fn lemma_decimal(n: nat)
    ensures
        decimal(n).len() > 0,
        forall|i: int| 0 <= i < decimal(n).len() ==> is_digit(#[trigger] decimal(n)[i]),
        digits_value(decimal(n)) == n,
    decreases n,
{
    if n < 10 {
        assert(decimal(n).drop_last() =~= Seq::empty());
        assert(digits_value(decimal(n).drop_last()) == 0);
    } else {
        lemma_decimal(n / 10);
        assert(decimal(n).drop_last() =~= decimal(n / 10));
        assert forall|i: int| 0 <= i < decimal(n).len() implies is_digit(
            #[trigger] decimal(n)[i],
        ) by {
            if i < decimal(n / 10).len() {
                assert(decimal(n)[i] == decimal(n / 10)[i]);
            }
        }
    }
}

/// Two numbers with the same decimal text are the same number.
pub proof fn law_decimal_is_unambiguous(a: nat, b: nat)
    requires
        decimal(a) == decimal(b),
    ensures
        a == b,
{
    lemma_decimal(a);
    lemma_decimal(b);
}

/// What digits add to a number that fits is a number that fits.
proof fn lemma_digits_fit(negative: bool, read: int, digits: Seq<char>)
    requires
        i32::MIN <= read <= i32::MAX,
        negative ==> read <= 0,
        !negative ==> read >= 0,
    ensures
        digits_read(negative, read, digits) matches Ok(n) ==> i32::MIN <= n <= i32::MAX,
    decreases digits.len(),
{
    if digits.len() > 0 && is_digit(digits[0]) {
        let next = if negative {
            read * 10 - digit_value(digits[0])
        } else {
            read * 10 + digit_value(digits[0])
        };
        if i32::MIN <= next <= i32::MAX {
            lemma_digits_fit(negative, next, digits.drop_first());
        }
    }
}

/// A number that is read fits.
pub proof fn law_number_fits(text: Seq<char>)
    ensures
        number_read(text) matches Ok(n) ==> i32::MIN <= n <= i32::MAX,
{
    if text.len() > 0 {
        lemma_digits_fit(text[0] == '-', 0, text.drop_first());
        lemma_digits_fit(false, 0, text);
    }
}

/// Reading on from a prefix: the characters behind it are read with the number that it makes.
proof fn lemma_read_prefix(negative: bool, read: int, digits: Seq<char>, last: char)
    requires
        digits_read(negative, read, digits) is Ok,
    ensures
        digits_read(negative, read, digits.push(last)) == digits_read(
            negative,
            digits_read(negative, read, digits)->Ok_0,
            seq![last],
        ),
    decreases digits.len(),
{
    if digits.len() == 0 {
        assert(digits.push(last) =~= seq![last]);
    } else {
        let next = if negative {
            read * 10 - digit_value(digits[0])
        } else {
            read * 10 + digit_value(digits[0])
        };
        assert(digits.push(last).drop_first() =~= digits.drop_first().push(last));
        lemma_read_prefix(negative, next, digits.drop_first(), last);
    }
}

/// The decimal text of a number that fits is read as that number, with the sign asked for.
proof fn lemma_digits_of_decimal(negative: bool, n: nat)
    requires
        negative ==> -n >= i32::MIN,
        !negative ==> n <= i32::MAX,
    ensures
        digits_read(negative, 0, decimal(n)) == Ok::<int, NumberError>(
            if negative {
                -n
            } else {
                n as int
            },
        ),
    decreases n,
{
    reveal_with_fuel(digits_read, 3);
    if n < 10 {
        assert(decimal(n).drop_first() =~= Seq::empty());
    } else {
        lemma_digits_of_decimal(negative, n / 10);
        lemma_read_prefix(negative, 0, decimal(n / 10), digit_char(n % 10));
        assert(seq![digit_char(n % 10)].drop_first() =~= Seq::empty());
    }
}

/// A number that is written in decimal is read back as that number.
pub proof fn law_written_number_is_read_back(n: int)
    requires
        i32::MIN <= n <= i32::MAX,
    ensures
        number_read(signed_decimal(n)) == Ok::<int, NumberError>(n),
{
    if n < 0 {
        lemma_decimal((-n) as nat);
        lemma_digits_of_decimal(true, (-n) as nat);
        assert(signed_decimal(n).drop_first() =~= decimal((-n) as nat));
    } else {
        lemma_decimal(n as nat);
        lemma_digits_of_decimal(false, n as nat);
        assert(is_digit(signed_decimal(n)[0]));
    }
}

/// `digits` is one digit or more, and nothing else.
pub open spec fn is_digits(digits: Seq<char>) -> bool {
    &&& digits.len() > 0
    &&& forall|i: int| 0 <= i < digits.len() ==> '0' <= #[trigger] digits[i] <= '9'
}

/// The decimal text of a number is its digits, of which the first is no zero unless it is the only
/// one: with `n` behind it comes the digit of the remainder by ten, and before that the text of the
/// quotient. A negative number has a minus sign in front.
pub proof fn law_decimal_text_is_the_digits(n: nat)
    ensures
        is_digits(decimal(n)),
        n > 0 ==> decimal(n)[0] != '0',
        n == 0 ==> decimal(n) == "0"@,
        decimal(n).last() as u32 == 0x30 + n % 10,
        n >= 10 ==> decimal(n).drop_last() == decimal(n / 10),
        n < 10 ==> decimal(n).len() == 1,
        signed_decimal(n as int) == decimal(n),
        n > 0 ==> signed_decimal(-n) == "-"@ + decimal(n),
    decreases n,
{
    reveal_strlit("0");
    reveal_strlit("-");
    lemma_decimal(n);
    assert forall|i: int| 0 <= i < decimal(n).len() implies '0' <= #[trigger] decimal(n)[i]
        <= '9' by {
        assert(is_digit(decimal(n)[i]));
    }
    if n >= 10 {
        law_decimal_text_is_the_digits(n / 10);
        assert(decimal(n).drop_last() =~= decimal(n / 10));
        assert(decimal(n)[0] == decimal(n / 10)[0]);
    } else if n == 0 {
        assert(decimal(n) =~= "0"@);
    }
    assert("-"@ =~= seq!['-']);
}

/// A number brought to a width is its sign, as many zeros as it lacks and no more, and its digits.
pub proof fn law_padding_is_zeros(n: nat, width: nat)
    ensures
        ({
            let text = zero_padded(n as int, width);
            let size = decimal(n).len();
            &&& text.len() == (if size < width {
                width
            } else {
                size
            })
            &&& text.skip(text.len() - size) == decimal(n)
            &&& forall|i: int| 0 <= i < text.len() - size ==> #[trigger] text[i] == '0'
        }),
        n > 0 ==> ({
            let text = zero_padded(-n, width);
            let size = decimal(n).len();
            &&& text.len() == (if size + 1 < width {
                width
            } else {
                size + 1
            })
            &&& text[0] == '-'
            &&& text.skip(text.len() - size) == decimal(n)
            &&& forall|i: int| 1 <= i < text.len() - size ==> #[trigger] text[i] == '0'
        }),
{
    let size = decimal(n).len();
    let text = zero_padded(n as int, width);
    assert(text.skip(text.len() - size) =~= decimal(n));
    if n > 0 {
        let text = zero_padded(-n, width);
        assert(text.skip(text.len() - size) =~= decimal(n));
    }
}

proof fn lemma_value_grows(digits: Seq<char>)
    requires
        is_digits(digits),
    ensures
        digits_value(digits) >= 0,
    decreases digits.len(),
{
    let rest = digits.drop_last();
    assert('0' <= digits[digits.len() - 1] <= '9');
    if rest.len() > 0 {
        assert forall|i: int| 0 <= i < rest.len() implies '0' <= #[trigger] rest[i] <= '9' by {
            assert(rest[i] == digits[i]);
        }
        lemma_value_grows(rest);
    } else {
        assert(digits_value(rest) == 0);
    }
}

proof fn lemma_too_large_stays(negative: bool, read: int, digits: Seq<char>, last: char)
    requires
        digits_read(negative, read, digits) is Err,
    ensures
        digits_read(negative, read, digits.push(last)) == digits_read(negative, read, digits),
    decreases digits.len(),
{
    assert(digits.push(last)[0] == digits[0]);
    let next = if negative {
        read * 10 - digit_value(digits[0])
    } else {
        read * 10 + digit_value(digits[0])
    };
    assert(digits.push(last).drop_first() =~= digits.drop_first().push(last));
    if is_digit(digits[0]) && (if negative {
        next >= i32::MIN
    } else {
        next <= i32::MAX
    }) {
        lemma_too_large_stays(negative, next, digits.drop_first(), last);
    }
}

/// Digits are read as the number that they write, as long as that fits.
proof fn lemma_digits_are_read(negative: bool, digits: Seq<char>)
    requires
        is_digits(digits),
    ensures
        digits_read(negative, 0, digits) == (if negative {
            if -digits_value(digits) >= i32::MIN {
                Ok::<int, NumberError>(-digits_value(digits))
            } else {
                Err(NumberError::TooSmall)
            }
        } else {
            if digits_value(digits) <= i32::MAX {
                Ok::<int, NumberError>(digits_value(digits))
            } else {
                Err(NumberError::TooLarge)
            }
        }),
    decreases digits.len(),
{
    reveal_with_fuel(digits_read, 3);
    let rest = digits.drop_last();
    let last = digits.last();
    assert('0' <= digits[digits.len() - 1] <= '9');
    assert(digits =~= rest.push(last));
    if rest.len() == 0 {
        assert(digits_value(rest) == 0);
        assert(digits =~= seq![last]);
        assert(digits.drop_first() =~= Seq::empty());
    } else {
        assert forall|i: int| 0 <= i < rest.len() implies '0' <= #[trigger] rest[i] <= '9' by {
            assert(rest[i] == digits[i]);
        }
        lemma_value_grows(rest);
        lemma_digits_are_read(negative, rest);
        if digits_read(negative, 0, rest) is Ok {
            lemma_read_prefix(negative, 0, rest, last);
            assert(seq![last].drop_first() =~= Seq::empty());
        } else {
            lemma_too_large_stays(negative, 0, rest, last);
        }
    }
}

proof fn lemma_read_digits_only(negative: bool, read: int, digits: Seq<char>)
    requires
        digits_read(negative, read, digits) is Ok,
    ensures
        forall|i: int| 0 <= i < digits.len() ==> '0' <= #[trigger] digits[i] <= '9',
    decreases digits.len(),
{
    if digits.len() > 0 {
        let next = if negative {
            read * 10 - digit_value(digits[0])
        } else {
            read * 10 + digit_value(digits[0])
        };
        lemma_read_digits_only(negative, next, digits.drop_first());
        assert forall|i: int| 0 <= i < digits.len() implies '0' <= #[trigger] digits[i] <= '9' by {
            if i > 0 {
                assert(digits[i] == digits.drop_first()[i - 1]);
            }
        }
    }
}

/// Digits, with a sign in front of them or without, are read as the number that they write where it
/// fits, and rejected for what they are where it does not.
pub proof fn law_digits_are_read_as_their_number(digits: Seq<char>)
    requires
        is_digits(digits),
    ensures
        ({
            let value = digits_value(digits);
            let positive = if value <= 0x7fff_ffff {
                Ok::<int, NumberError>(value)
            } else {
                Err(NumberError::TooLarge)
            };
            let negative = if value <= 0x8000_0000 {
                Ok::<int, NumberError>(-value)
            } else {
                Err(NumberError::TooSmall)
            };
            &&& number_read(digits) == positive
            &&& number_read(seq!['+'] + digits) == positive
            &&& number_read(seq!['-'] + digits) == negative
        }),
{
    lemma_digits_are_read(false, digits);
    lemma_digits_are_read(true, digits);
    assert('0' <= digits[0] <= '9');
    assert((seq!['+'] + digits).drop_first() =~= digits);
    assert((seq!['-'] + digits).drop_first() =~= digits);
}

/// Nothing but digits, with one sign in front of them or without, is read as a number; the empty
/// text and a sign alone are rejected for what they are, and each rejection has its words.
pub proof fn law_nothing_else_is_a_number(text: Seq<char>)
    ensures
        number_read(text) is Ok ==> is_digits(text) || text.len() > 1 && (text[0] == '+' || text[0]
            == '-') && is_digits(text.drop_first()),
        text.len() == 0 ==> number_read(text) == Err::<int, _>(NumberError::Empty),
        text.len() == 1 && !('0' <= text[0] <= '9') ==> number_read(text) == Err::<int, _>(
            NumberError::InvalidDigit,
        ),
        NumberError::Empty.reason() == "cannot parse integer from empty string"@,
        NumberError::InvalidDigit.reason() == "invalid digit found in string"@,
        NumberError::TooLarge.reason() == "number too large to fit in target type"@,
        NumberError::TooSmall.reason() == "number too small to fit in target type"@,
{
    if number_read(text) is Ok {
        if text[0] == '+' || text[0] == '-' {
            lemma_read_digits_only(text[0] == '-', 0, text.drop_first());
        } else {
            lemma_read_digits_only(false, 0, text);
        }
    }
}

proof fn lemma_read_stops(negative: bool, read: int, digits: Seq<char>, i: int)
    requires
        0 <= i < digits.len(),
        !is_digit(digits[i]),
        digits_read(negative, read, digits.take(i)) is Ok,
    ensures
        digits_read(negative, read, digits) == Err::<int, _>(NumberError::InvalidDigit),
    decreases digits.len(),
{
    if i > 0 {
        let next = if negative {
            read * 10 - digit_value(digits[0])
        } else {
            read * 10 + digit_value(digits[0])
        };
        assert(digits.take(i)[0] == digits[0]);
        assert(digits.take(i).drop_first() =~= digits.drop_first().take(i - 1));
        lemma_read_stops(negative, next, digits.drop_first(), i - 1);
    }
}

/// Digits that fit, with a minus sign where `negative` is so, or none at all, can be read.
proof fn lemma_fitting_digits_are_read(negative: bool, digits: Seq<char>)
    requires
        digits.len() > 0 ==> is_digits(digits) && digits_value(digits) <= 0x7fff_ffff,
    ensures
        digits_read(negative, 0, digits) is Ok,
{
    if digits.len() > 0 {
        lemma_digits_are_read(negative, digits);
    }
}

/// A character that is no digit, behind digits that fit or behind none, and behind a sign or none,
/// makes a text no number, and that is what is said of it.
pub proof fn law_strange_character_is_named(digits: Seq<char>, strange: char, rest: Seq<char>)
    requires
        digits.len() > 0 ==> is_digits(digits) && digits_value(digits) <= 0x7fff_ffff,
        !('0' <= strange <= '9'),
    ensures
        digits.len() > 0 || strange != '+' && strange != '-' ==> number_read(
            digits + seq![strange] + rest,
        ) == Err::<int, _>(NumberError::InvalidDigit),
        number_read(seq!['+'] + (digits + seq![strange] + rest)) == Err::<int, _>(
            NumberError::InvalidDigit,
        ),
        number_read(seq!['-'] + (digits + seq![strange] + rest)) == Err::<int, _>(
            NumberError::InvalidDigit,
        ),
{
    let text = digits + seq![strange] + rest;
    let n = digits.len() as int;
    lemma_fitting_digits_are_read(false, digits);
    lemma_fitting_digits_are_read(true, digits);
    assert(text.take(n) =~= digits);
    assert(text[n] == strange);
    if n > 0 {
        assert('0' <= digits[0] <= '9');
        assert(text[0] == digits[0]);
    }
    lemma_read_stops(false, 0, text, n);
    lemma_read_stops(true, 0, text, n);
    assert((seq!['+'] + text).drop_first() =~= text);
    assert((seq!['-'] + text).drop_first() =~= text);
}

proof fn lemma_misfit_stays(negative: bool, digits: Seq<char>, rest: Seq<char>)
    requires
        digits_read(negative, 0, digits) is Err,
    ensures
        digits_read(negative, 0, digits + rest) == digits_read(negative, 0, digits),
    decreases rest.len(),
{
    if rest.len() == 0 {
        assert(digits + rest =~= digits);
    } else {
        lemma_misfit_stays(negative, digits, rest.drop_last());
        assert(digits + rest =~= (digits + rest.drop_last()).push(rest.last()));
        lemma_too_large_stays(negative, 0, digits + rest.drop_last(), rest.last());
    }
}

/// Digits that do not fit are rejected for that, whatever stands behind them.
pub proof fn law_misfit_is_named(digits: Seq<char>, rest: Seq<char>)
    requires
        is_digits(digits),
    ensures
        digits_value(digits) > 0x7fff_ffff ==> number_read(digits + rest) == Err::<int, _>(
            NumberError::TooLarge,
        ),
        digits_value(digits) > 0x7fff_ffff ==> number_read(seq!['+'] + (digits + rest)) == Err::<
            int,
            _,
        >(NumberError::TooLarge),
        digits_value(digits) > 0x8000_0000 ==> number_read(seq!['-'] + (digits + rest)) == Err::<
            int,
            _,
        >(NumberError::TooSmall),
{
    let text = digits + rest;
    lemma_digits_are_read(false, digits);
    lemma_digits_are_read(true, digits);
    if digits_value(digits) > 0x7fff_ffff {
        lemma_misfit_stays(false, digits, rest);
    }
    if digits_value(digits) > 0x8000_0000 {
        lemma_misfit_stays(true, digits, rest);
    }
    assert('0' <= digits[0] <= '9');
    assert(text[0] == digits[0]);
    assert((seq!['+'] + text).drop_first() =~= text);
    assert((seq!['-'] + text).drop_first() =~= text);
}

proof fn lemma_value_behind_zeros(zeros: nat, digits: Seq<char>)
    ensures
        digits_value(Seq::new(zeros, |i: int| '0') + digits) == digits_value(digits),
    decreases zeros + digits.len(),
{
    let front = Seq::new(zeros, |i: int| '0');
    if digits.len() > 0 {
        assert((front + digits).drop_last() =~= front + digits.drop_last());
        lemma_value_behind_zeros(zeros, digits.drop_last());
    } else if zeros > 0 {
        let fewer = (zeros - 1) as nat;
        let empty = Seq::<char>::empty();
        assert((front + digits).drop_last() =~= Seq::new(fewer, |i: int| '0') + empty);
        lemma_value_behind_zeros(fewer, empty);
    } else {
        assert(front + digits =~= digits);
    }
}

/// A number brought to a width by zeros still stands for that number.
pub proof fn lemma_zeros_add_nothing(n: nat, width: nat)
    ensures
        digits_value(zero_padded(n as int, width)) == n,
{
    lemma_decimal(n);
    let size = decimal(n).len();
    let zeros = if size < width {
        (width - size) as nat
    } else {
        0
    };
    lemma_value_behind_zeros(zeros, decimal(n));
}

/// What is read behind a minus sign is not positive.
pub proof fn lemma_negative_is_not_positive(digits: Seq<char>)
    requires
        digits_read(true, 0, digits) is Ok,
    ensures
        digits_read(true, 0, digits)->Ok_0 <= 0,
{
    lemma_negative_stays(0, digits);
}

proof fn lemma_negative_stays(read: int, digits: Seq<char>)
    requires
        read <= 0,
        digits_read(true, read, digits) is Ok,
    ensures
        digits_read(true, read, digits)->Ok_0 <= 0,
    decreases digits.len(),
{
    if digits.len() > 0 {
        lemma_negative_stays(read * 10 - digit_value(digits[0]), digits.drop_first());
    }
}

} // verus!
