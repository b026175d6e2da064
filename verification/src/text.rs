//! Operations on text, stated over sequences of characters.

use vstd::prelude::*;
use vstd::utf8::*;

verus! {

/// `String::push` appends one character and leaves what was there before it.
pub assume_specification[ String::push ](s: &mut String, ch: char)
    ensures
        final(s)@ == old(s)@.push(ch),
;

/// The characters of `text`, in order.
pub fn chars_of(text: &str) -> (chars: Vec<char>)
    ensures
        chars@ == text@,
{
    let mut chars: Vec<char> = Vec::new();
    for c in walk: text.chars()
        invariant
            walk.seq() == text@,
            chars@ == text@.take(walk.index()),
    {
        chars.push(c);
        assert(chars@ =~= text@.take(walk.index() + 1));
    }
    assert(chars@ =~= text@);
    chars
}

/// Whether two texts hold the same characters.
pub fn text_eq(left: &str, right: &str) -> (same: bool)
    ensures
        same == (left@ == right@),
{
    let a = left.as_bytes();
    let b = right.as_bytes();
    proof {
        encode_utf8_decode_utf8(left@);
        encode_utf8_decode_utf8(right@);
    }
    if a.len() != b.len() {
        return false;
    }
    let mut i: usize = 0;
    while i < a.len()
        invariant
            i <= a.len() == b.len(),
            a@ == encode_utf8(left@),
            b@ == encode_utf8(right@),
            forall|j: int| 0 <= j < i ==> a@[j] == b@[j],
        decreases a.len() - i,
    {
        if a[i] != b[i] {
            return false;
        }
        i += 1;
    }
    assert(a@ =~= b@);
    true
}

/// `part` stands in `text` from position `at` on.
pub open spec fn occurs_at(text: Seq<char>, part: Seq<char>, at: int) -> bool {
    &&& 0 <= at
    &&& at + part.len() <= text.len()
    &&& text.subrange(at, at + part.len()) == part
}

/// `part` stands somewhere in `text`.
pub open spec fn has_part(text: Seq<char>, part: Seq<char>) -> bool {
    exists|at: int| occurs_at(text, part, at)
}

/// `text` ends with `part`.
pub open spec fn ends_in(text: Seq<char>, part: Seq<char>) -> bool {
    occurs_at(text, part, text.len() - part.len())
}

/// What stands in one of two texts stands in the two together.
pub proof fn lemma_part_of_two(front: Seq<char>, back: Seq<char>, part: Seq<char>)
    ensures
        has_part(front, part) || has_part(back, part) ==> has_part(front + back, part),
{
    let whole = front + back;
    if has_part(front, part) {
        let at = choose|at: int| occurs_at(front, part, at);
        assert(whole.subrange(at, at + part.len()) =~= front.subrange(at, at + part.len()));
        assert(occurs_at(whole, part, at));
    } else if has_part(back, part) {
        let at = choose|at: int| occurs_at(back, part, at);
        let moved = front.len() + at;
        assert(whole.subrange(moved, moved + part.len()) =~= back.subrange(at, at + part.len()));
        assert(occurs_at(whole, part, moved));
    }
}

/// A character that stands in neither of two texts does not stand in the two together.
pub proof fn lemma_not_in_two(front: Seq<char>, back: Seq<char>, c: char)
    requires
        !front.contains(c),
        !back.contains(c),
    ensures
        !(front + back).contains(c),
{
    let whole = front + back;
    if whole.contains(c) {
        let i = choose|i: int| 0 <= i < whole.len() && whole[i] == c;
        if i < front.len() {
            assert(front[i] == c);
        } else {
            assert(back[i - front.len()] == c);
        }
    }
}

/// Whether `part` stands in `chars` from position `at` on.
fn part_at(chars: &Vec<char>, part: &Vec<char>, at: usize) -> (found: bool)
    requires
        at + part.len() <= chars.len(),
    ensures
        found == occurs_at(chars@, part@, at as int),
{
    let mut i: usize = 0;
    while i < part.len()
        invariant
            i <= part.len(),
            at + part.len() <= chars.len(),
            forall|j: int| 0 <= j < i ==> chars@[at + j] == part@[j],
        decreases part.len() - i,
    {
        if chars[at + i] != part[i] {
            assert(chars@.subrange(at as int, at + part.len())[i as int] != part@[i as int]);
            return false;
        }
        i += 1;
    }
    assert(chars@.subrange(at as int, at + part.len()) =~= part@);
    true
}

/// Whether `part` stands somewhere in `text`.
pub fn text_contains(text: &str, part: &str) -> (found: bool)
    ensures
        found == has_part(text@, part@),
{
    let chars = chars_of(text);
    let wanted = chars_of(part);
    if wanted.len() > chars.len() {
        return false;
    }
    let last: usize = chars.len() - wanted.len();
    let mut at: usize = 0;
    loop
        invariant
            chars@ == text@,
            wanted@ == part@,
            at <= last,
            last + wanted.len() == chars.len(),
            forall|i: int| 0 <= i < at ==> !occurs_at(text@, part@, i),
        decreases last - at,
    {
        if part_at(&chars, &wanted, at) {
            return true;
        }
        if at == last {
            return false;
        }
        at += 1;
    }
}

/// Whether `text` ends with `part`.
pub fn text_ends_with(text: &str, part: &str) -> (found: bool)
    ensures
        found == ends_in(text@, part@),
{
    let chars = chars_of(text);
    let wanted = chars_of(part);
    if wanted.len() > chars.len() {
        return false;
    }
    part_at(&chars, &wanted, chars.len() - wanted.len())
}

/// Whether the character `wanted` stands in `text`.
pub fn text_has_char(text: &str, wanted: char) -> (found: bool)
    ensures
        found == text@.contains(wanted),
{
    let chars = chars_of(text);
    let mut i: usize = 0;
    while i < chars.len()
        invariant
            i <= chars.len(),
            chars@ == text@,
            forall|j: int| 0 <= j < i ==> text@[j] != wanted,
        decreases chars.len() - i,
    {
        if chars[i] == wanted {
            assert(text@[i as int] == wanted);
            return true;
        }
        i += 1;
    }
    false
}

/// `text` with every `from` turned into `to`.
pub open spec fn with_char_replaced(text: Seq<char>, from: char, to: char) -> Seq<char> {
    text.map_values(
        |c: char|
            if c == from {
                to
            } else {
                c
            },
    )
}

/// A copy of `text` in which every `from` is `to`.
pub fn replace_char(text: &str, from: char, to: char) -> (replaced: String)
    ensures
        replaced@ == with_char_replaced(text@, from, to),
{
    let chars = chars_of(text);
    let mut replaced = String::new();
    let mut i: usize = 0;
    while i < chars.len()
        invariant
            i <= chars.len(),
            chars@ == text@,
            replaced@ == with_char_replaced(text@, from, to).take(i as int),
        decreases chars.len() - i,
    {
        if chars[i] == from {
            replaced.push(to);
        } else {
            replaced.push(chars[i]);
        }
        i += 1;
        assert(replaced@ =~= with_char_replaced(text@, from, to).take(i as int));
    }
    assert(replaced@ =~= with_char_replaced(text@, from, to));
    replaced
}

/// `text` on one line: every line feed is a space.
pub open spec fn one_lined(text: Seq<char>) -> Seq<char> {
    with_char_replaced(text, '\n', ' ')
}

/// A copy of `text` on one line: every line feed is a space.
pub fn on_one_line(text: &str) -> (line: String)
    ensures
        line@ == one_lined(text@),
{
    replace_char(text, '\n', ' ')
}

/// `text` holds no line feed.
pub open spec fn is_flat(text: Seq<char>) -> bool {
    !text.contains('\n')
}

/// Text on one line holds no line feed, and what holds none is left as it is.
pub proof fn lemma_one_lined(text: Seq<char>)
    ensures
        is_flat(one_lined(text)),
        one_lined(text).len() == text.len(),
        is_flat(text) ==> one_lined(text) == text,
{
    let flat = one_lined(text);
    assert forall|i: int| 0 <= i < flat.len() implies #[trigger] flat[i] != '\n' by {
    }
    if is_flat(text) {
        assert forall|i: int| 0 <= i < text.len() implies flat[i] == #[trigger] text[i] by {
            assert(text.contains(text[i]));
        }
        assert(flat =~= text);
    }
}

/// `c` in lower case where it is one of the letters `A` to `Z`, else `c`.
pub open spec fn ascii_lower(c: char) -> char {
    if 'A' <= c <= 'Z' {
        (c as int - 'A' as int + 'a' as int) as char
    } else {
        c
    }
}

/// `text` with the letters `A` to `Z` in lower case.
pub open spec fn ascii_lowered(text: Seq<char>) -> Seq<char> {
    text.map_values(|c: char| ascii_lower(c))
}

/// A copy of `text` with the letters `A` to `Z` in lower case.
pub fn to_ascii_lower(text: &str) -> (lowered: String)
    ensures
        lowered@ == ascii_lowered(text@),
{
    let chars = chars_of(text);
    let mut lowered = String::new();
    let mut i: usize = 0;
    while i < chars.len()
        invariant
            i <= chars.len(),
            chars@ == text@,
            lowered@ == ascii_lowered(text@).take(i as int),
        decreases chars.len() - i,
    {
        let c = chars[i];
        if 'A' <= c && c <= 'Z' {
            lowered.push((c as u8 + 32) as char);
        } else {
            lowered.push(c);
        }
        i += 1;
        assert(lowered@ =~= ascii_lowered(text@).take(i as int));
    }
    assert(lowered@ =~= ascii_lowered(text@));
    lowered
}

/// The characters that Unicode counts as white space.
pub open spec fn is_white(c: char) -> bool {
    ||| 0x09 <= c as u32 <= 0x0d
    ||| c as u32 == 0x20
    ||| c as u32 == 0x85
    ||| c as u32 == 0xa0
    ||| c as u32 == 0x1680
    ||| 0x2000 <= c as u32 <= 0x200a
    ||| c as u32 == 0x2028
    ||| c as u32 == 0x2029
    ||| c as u32 == 0x202f
    ||| c as u32 == 0x205f
    ||| c as u32 == 0x3000
}

/// Whether Unicode counts `c` as white space.
pub fn char_is_white(c: char) -> (white: bool)
    ensures
        white == is_white(c),
{
    let code: u32 = c as u32;
    (0x09 <= code && code <= 0x0d) || code == 0x20 || code == 0x85 || code == 0xa0 || code == 0x1680
        || (0x2000 <= code && code <= 0x200a) || code == 0x2028 || code == 0x2029 || code == 0x202f
        || code == 0x205f || code == 0x3000
}

/// `text` without the white space at its front.
pub open spec fn trimmed_front(text: Seq<char>) -> Seq<char>
    decreases text.len(),
{
    if text.len() > 0 && is_white(text[0]) {
        trimmed_front(text.drop_first())
    } else {
        text
    }
}

/// `text` without the white space at its end.
pub open spec fn trimmed_back(text: Seq<char>) -> Seq<char>
    decreases text.len(),
{
    if text.len() > 0 && is_white(text.last()) {
        trimmed_back(text.drop_last())
    } else {
        text
    }
}

/// `text` without the white space around it.
pub open spec fn trimmed(text: Seq<char>) -> Seq<char> {
    trimmed_back(trimmed_front(text))
}

/// A copy of `text` without the white space around it.
pub fn trim(text: &str) -> (inner: String)
    ensures
        inner@ == trimmed(text@),
{
    let chars = chars_of(text);
    let mut from: usize = 0;
    assert(text@.skip(0) =~= text@);
    while from < chars.len() && char_is_white(chars[from])
        invariant
            from <= chars.len(),
            chars@ == text@,
            trimmed_front(text@) == trimmed_front(text@.skip(from as int)),
        decreases chars.len() - from,
    {
        assert(text@.skip(from as int).drop_first() =~= text@.skip(from + 1));
        from += 1;
    }
    let ghost front = trimmed_front(text@);
    assert(front =~= text@.skip(from as int));
    let mut to: usize = chars.len();
    assert(text@.subrange(from as int, to as int) =~= front);
    while from < to && char_is_white(chars[to - 1])
        invariant
            from <= to <= chars.len(),
            chars@ == text@,
            trimmed_back(front) == trimmed_back(text@.subrange(from as int, to as int)),
        decreases to,
    {
        assert(text@.subrange(from as int, to as int).drop_last() =~= text@.subrange(
            from as int,
            to - 1,
        ));
        to -= 1;
    }
    text.substring_char(from, to).to_owned()
}

/// `text` without the line feeds at its front.
pub open spec fn without_leading_newlines(text: Seq<char>) -> Seq<char>
    decreases text.len(),
{
    if text.len() > 0 && text[0] == '\n' {
        without_leading_newlines(text.drop_first())
    } else {
        text
    }
}

/// A copy of `text` without the line feeds at its front.
pub fn trim_leading_newlines(text: &str) -> (rest: String)
    ensures
        rest@ == without_leading_newlines(text@),
{
    let chars = chars_of(text);
    let mut from: usize = 0;
    assert(text@.skip(0) =~= text@);
    while from < chars.len() && chars[from] == '\n'
        invariant
            from <= chars.len(),
            chars@ == text@,
            without_leading_newlines(text@) == without_leading_newlines(text@.skip(from as int)),
        decreases chars.len() - from,
    {
        assert(text@.skip(from as int).drop_first() =~= text@.skip(from + 1));
        from += 1;
    }
    assert(text@.subrange(from as int, text@.len() as int) =~= text@.skip(from as int));
    text.substring_char(from, chars.len()).to_owned()
}

/// Text in lower case is not lowered further, and lowering touches no white space.
pub proof fn lemma_lowering(text: Seq<char>)
    ensures
        ascii_lowered(ascii_lowered(text)) == ascii_lowered(text),
        ascii_lowered(trimmed(text)) == trimmed(ascii_lowered(text)),
{
    assert(ascii_lowered(ascii_lowered(text)) =~= ascii_lowered(text));
    lemma_lowering_front(text);
    lemma_lowering_back(trimmed_front(text));
}

proof fn lemma_lowering_front(text: Seq<char>)
    ensures
        ascii_lowered(trimmed_front(text)) == trimmed_front(ascii_lowered(text)),
    decreases text.len(),
{
    if text.len() > 0 && is_white(text[0]) {
        assert(ascii_lowered(text).drop_first() =~= ascii_lowered(text.drop_first()));
        lemma_lowering_front(text.drop_first());
    } else if text.len() > 0 {
        assert(ascii_lowered(text)[0] == ascii_lower(text[0]));
    }
}

proof fn lemma_lowering_back(text: Seq<char>)
    ensures
        ascii_lowered(trimmed_back(text)) == trimmed_back(ascii_lowered(text)),
    decreases text.len(),
{
    if text.len() > 0 && is_white(text.last()) {
        assert(ascii_lowered(text).drop_last() =~= ascii_lowered(text.drop_last()));
        lemma_lowering_back(text.drop_last());
    } else if text.len() > 0 {
        assert(ascii_lowered(text).last() == ascii_lower(text.last()));
    }
}

/// White space before or behind a text changes nothing of what is left without it.
pub proof fn lemma_trimming(text: Seq<char>, white: char)
    requires
        is_white(white),
    ensures
        trimmed(seq![white] + text) == trimmed(text),
        trimmed(text.push(white)) == trimmed(text),
{
    assert((seq![white] + text).drop_first() =~= text);
    lemma_trimming_behind(text, white);
}

proof fn lemma_trimming_behind(text: Seq<char>, white: char)
    requires
        is_white(white),
    ensures
        trimmed(text.push(white)) == trimmed(text),
    decreases text.len(),
{
    let longer = text.push(white);
    if text.len() == 0 {
        assert(longer.drop_first() =~= text);
    } else if is_white(text[0]) {
        assert(longer.drop_first() =~= text.drop_first().push(white));
        lemma_trimming_behind(text.drop_first(), white);
    } else {
        assert(longer[0] == text[0]);
        assert(longer.drop_last() =~= text);
    }
}

/// A part stands in a text if and only if the text is something, the part, and something.
pub proof fn law_part_stands_between(text: Seq<char>, part: Seq<char>)
    ensures
        has_part(text, part) ==> exists|front: Seq<char>, back: Seq<char>|
            text == #[trigger] (front + part + back),
        forall|front: Seq<char>, back: Seq<char>|
            text == #[trigger] (front + part + back) ==> has_part(text, part),
{
    if has_part(text, part) {
        let at = choose|at: int| occurs_at(text, part, at);
        let front = text.take(at);
        let back = text.skip(at + part.len());
        assert(text =~= front + part + back) by {
            assert forall|i: int| at <= i < at + part.len() implies text[i] == #[trigger] part[i
                - at] by {
                assert(text.subrange(at, at + part.len())[i - at] == text[i]);
            }
        }
    }
    assert forall|front: Seq<char>, back: Seq<char>| text == #[trigger] (front + part
        + back) implies has_part(text, part) by {
        let at = front.len() as int;
        assert(text.subrange(at, at + part.len()) =~= part);
        assert(occurs_at(text, part, at));
    }
}

/// A text ends with a part if and only if it is something and the part.
pub proof fn law_end_stands_last(text: Seq<char>, part: Seq<char>)
    ensures
        ends_in(text, part) ==> exists|front: Seq<char>| text == #[trigger] (front + part),
        forall|front: Seq<char>| text == #[trigger] (front + part) ==> ends_in(text, part),
{
    if ends_in(text, part) {
        let at = text.len() - part.len();
        let front = text.take(at);
        assert(text =~= front + part) by {
            assert forall|i: int| at <= i < text.len() implies text[i] == #[trigger] part[i
                - at] by {
                assert(text.subrange(at, at + part.len())[i - at] == text[i]);
            }
        }
    }
    assert forall|front: Seq<char>| text == #[trigger] (front + part) implies ends_in(
        text,
        part,
    ) by {
        let at = front.len() as int;
        assert(text.subrange(at, at + part.len()) =~= part);
    }
}

/// Replacing a character keeps the length, puts the other character in the place of that one, and
/// leaves every other place as it is.
pub proof fn law_replacing_goes_place_by_place(text: Seq<char>, from: char, to: char)
    ensures
        with_char_replaced(text, from, to).len() == text.len(),
        forall|i: int|
            0 <= i < text.len() ==> (text[i] == from ==> #[trigger] with_char_replaced(
                text,
                from,
                to,
            )[i] == to) && (text[i] != from ==> with_char_replaced(text, from, to)[i] == text[i]),
        one_lined(text).len() == text.len(),
        forall|i: int|
            0 <= i < text.len() ==> (text[i] == '\n' ==> #[trigger] one_lined(text)[i] == ' ') && (
            text[i] != '\n' ==> one_lined(text)[i] == text[i]),
{
}

/// Lowering keeps the length, moves the letters `A` to `Z` by the distance from `A` to `a`, and
/// leaves every other character as it is.
pub proof fn law_lowering_goes_place_by_place(text: Seq<char>)
    ensures
        ascii_lowered(text).len() == text.len(),
        forall|i: int|
            0 <= i < text.len() ==> (0x41 <= text[i] as u32 <= 0x5a ==> #[trigger] ascii_lowered(
                text,
            )[i] as u32 == text[i] as u32 + 0x20) && (!(0x41 <= text[i] as u32 <= 0x5a)
                ==> ascii_lowered(text)[i] == text[i]),
{
}

/// `text` is white space from end to end.
pub open spec fn all_white(text: Seq<char>) -> bool {
    forall|i: int| 0 <= i < text.len() ==> is_white(#[trigger] text[i])
}

/// `text` is empty, or neither its first nor its last character is white space.
pub open spec fn is_bare(text: Seq<char>) -> bool {
    text.len() > 0 ==> !is_white(text[0]) && !is_white(text[text.len() - 1])
}

proof fn lemma_trimmed_front(text: Seq<char>)
    ensures
        exists|front: Seq<char>|
            all_white(front) && text == #[trigger] (front + trimmed_front(text)),
        trimmed_front(text).len() > 0 ==> !is_white(trimmed_front(text)[0]),
    decreases text.len(),
{
    if text.len() > 0 && is_white(text[0]) {
        let rest = text.drop_first();
        assert(trimmed_front(text) == trimmed_front(rest));
        lemma_trimmed_front(rest);
        let front = choose|front: Seq<char>|
            all_white(front) && rest == #[trigger] (front + trimmed_front(rest));
        let longer = seq![text[0]] + front;
        assert(text =~= seq![text[0]] + rest);
        assert(seq![text[0]] + (front + trimmed_front(rest)) =~= longer + trimmed_front(rest));
        assert(text == longer + trimmed_front(text));
        assert(all_white(longer)) by {
            assert forall|i: int| 0 <= i < longer.len() implies is_white(#[trigger] longer[i]) by {
                if i > 0 {
                    assert(longer[i] == front[i - 1]);
                }
            }
        }
    } else {
        let front = Seq::<char>::empty();
        assert(all_white(front));
        assert(text =~= front + trimmed_front(text));
    }
}

proof fn lemma_trimmed_back(text: Seq<char>)
    ensures
        exists|back: Seq<char>| all_white(back) && text == #[trigger] (trimmed_back(text) + back),
        trimmed_back(text).len() > 0 ==> !is_white(trimmed_back(text).last()) && trimmed_back(
            text,
        )[0] == text[0],
    decreases text.len(),
{
    if text.len() > 0 && is_white(text.last()) {
        let rest = text.drop_last();
        lemma_trimmed_back(rest);
        let back = choose|back: Seq<char>|
            all_white(back) && rest == #[trigger] (trimmed_back(rest) + back);
        let longer = back.push(text.last());
        assert(text =~= rest.push(text.last()));
        assert((trimmed_back(rest) + back).push(text.last()) =~= trimmed_back(rest) + longer);
        assert(text == trimmed_back(text) + longer);
        assert(all_white(longer)) by {
            assert forall|i: int| 0 <= i < longer.len() implies is_white(#[trigger] longer[i]) by {
                if i < back.len() {
                    assert(longer[i] == back[i]);
                }
            }
        }
    } else {
        let back = Seq::<char>::empty();
        assert(all_white(back));
        assert(text =~= trimmed_back(text) + back);
    }
}

/// What is trimmed away before and behind a text is white space, and what is left neither starts
/// nor ends with any.
pub proof fn law_only_white_space_is_trimmed(text: Seq<char>)
    ensures
        exists|front: Seq<char>, back: Seq<char>|
            all_white(front) && all_white(back) && text == #[trigger] (front + trimmed(text)
                + back),
        is_bare(trimmed(text)),
{
    let half = trimmed_front(text);
    lemma_trimmed_front(text);
    lemma_trimmed_back(half);
    let front = choose|front: Seq<char>| all_white(front) && text == #[trigger] (front + half);
    let back = choose|back: Seq<char>|
        all_white(back) && half == #[trigger] (trimmed_back(half) + back);
    assert(text =~= front + trimmed(text) + back);
}

proof fn lemma_trimmed_of_white_behind(core: Seq<char>, back: Seq<char>)
    requires
        all_white(back),
    ensures
        trimmed(core + back) == trimmed(core),
    decreases back.len(),
{
    if back.len() == 0 {
        assert(core + back =~= core);
    } else {
        let shorter = back.drop_last();
        assert(core + back =~= (core + shorter).push(back.last()));
        lemma_trimming(core + shorter, back.last());
        lemma_trimmed_of_white_behind(core, shorter);
    }
}

proof fn lemma_trimmed_of_white_before(front: Seq<char>, core: Seq<char>)
    requires
        all_white(front),
    ensures
        trimmed(front + core) == trimmed(core),
    decreases front.len(),
{
    if front.len() == 0 {
        assert(front + core =~= core);
    } else {
        let shorter = front.drop_first();
        assert(front + core =~= seq![front[0]] + (shorter + core));
        lemma_trimming(shorter + core, front[0]);
        assert forall|i: int| 0 <= i < shorter.len() implies is_white(#[trigger] shorter[i]) by {
            assert(shorter[i] == front[i + 1]);
        }
        lemma_trimmed_of_white_before(shorter, core);
    }
}

/// Whatever white space stands around a text that neither starts nor ends with any, trimming gives
/// that text.
pub proof fn law_trimming_finds_the_text(front: Seq<char>, core: Seq<char>, back: Seq<char>)
    requires
        all_white(front),
        all_white(back),
        is_bare(core),
    ensures
        trimmed(front + core + back) == core,
{
    lemma_trimmed_of_white_behind(front + core, back);
    lemma_trimmed_of_white_before(front, core);
    assert(trimmed_front(core) == core);
    assert(trimmed_back(core) == core);
}

/// `text` is line feeds from end to end.
pub open spec fn all_line_feeds(text: Seq<char>) -> bool {
    forall|i: int| 0 <= i < text.len() ==> #[trigger] text[i] == '\n'
}

/// What is taken away from the front of a text are line feeds, and what is left does not start with
/// one.
pub proof fn law_only_line_feeds_are_taken_away(text: Seq<char>)
    ensures
        exists|front: Seq<char>|
            all_line_feeds(front) && text == #[trigger] (front + without_leading_newlines(text)),
        without_leading_newlines(text).len() > 0 ==> without_leading_newlines(text)[0] != '\n',
    decreases text.len(),
{
    if text.len() > 0 && text[0] == '\n' {
        let rest = text.drop_first();
        law_only_line_feeds_are_taken_away(rest);
        let front = choose|front: Seq<char>|
            all_line_feeds(front) && rest == #[trigger] (front + without_leading_newlines(rest));
        let longer = seq![text[0]] + front;
        assert(text =~= seq![text[0]] + rest);
        assert(seq![text[0]] + (front + without_leading_newlines(rest)) =~= longer
            + without_leading_newlines(rest));
        assert(text == longer + without_leading_newlines(text));
        assert(all_line_feeds(longer)) by {
            assert forall|i: int| 0 <= i < longer.len() implies #[trigger] longer[i] == '\n' by {
                if i > 0 {
                    assert(longer[i] == front[i - 1]);
                }
            }
        }
    } else {
        let front = Seq::<char>::empty();
        assert(all_line_feeds(front));
        assert(text =~= front + without_leading_newlines(text));
    }
}

/// White space is twenty-five characters and no other.
pub proof fn law_white_space_is_listed(c: char)
    ensures
        is_white(c) <==> (c == '\u{9}' || c == '\u{a}' || c == '\u{b}' || c == '\u{c}' || c
            == '\u{d}' || c == ' ' || c == '\u{85}' || c == '\u{a0}' || c == '\u{1680}' || c
            == '\u{2000}' || c == '\u{2001}' || c == '\u{2002}' || c == '\u{2003}' || c
            == '\u{2004}' || c == '\u{2005}' || c == '\u{2006}' || c == '\u{2007}' || c
            == '\u{2008}' || c == '\u{2009}' || c == '\u{200a}' || c == '\u{2028}' || c
            == '\u{2029}' || c == '\u{202f}' || c == '\u{205f}' || c == '\u{3000}'),
{
}

} // verus!
