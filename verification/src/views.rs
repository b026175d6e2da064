//! Views of the plain values that pass between the library and its caller.

use vstd::prelude::*;
use vstd::slice::*;

verus! {

/// What an action without a result of its own came to.
pub open spec fn done_view(done: Result<(), String>) -> Result<(), Seq<char>> {
    match done {
        Ok(()) => Ok(()),
        Err(e) => Err(e@),
    }
}

/// A text, or why there is none.
pub open spec fn text_view(text: Result<String, String>) -> Result<Seq<char>, Seq<char>> {
    match text {
        Ok(t) => Ok(t@),
        Err(e) => Err(e@),
    }
}

/// Bytes, or why there are none.
pub open spec fn bytes_view(bytes: Result<Vec<u8>, String>) -> Result<Seq<u8>, Seq<char>> {
    match bytes {
        Ok(b) => Ok(b@),
        Err(e) => Err(e@),
    }
}

/// A number, or why there is none.
pub open spec fn number_view<N>(number: Result<N, String>) -> Result<N, Seq<char>> {
    match number {
        Ok(n) => Ok(n),
        Err(e) => Err(e@),
    }
}

/// A text that may be missing.
pub open spec fn maybe_view(text: Option<String>) -> Option<Seq<char>> {
    match text {
        Some(t) => Some(t@),
        None => None,
    }
}

/// A borrowed text that may be missing.
pub open spec fn maybe_str_view(text: Option<&str>) -> Option<Seq<char>> {
    match text {
        Some(t) => Some(t@),
        None => None,
    }
}

/// A copy of what an action came to.
pub fn copy_done(done: &Result<(), String>) -> (copy: Result<(), String>)
    ensures
        done_view(copy) == done_view(*done),
{
    match done {
        Ok(()) => Ok(()),
        Err(e) => Err(e.clone()),
    }
}

/// A copy of a text, or of why there is none.
pub fn copy_text(text: &Result<String, String>) -> (copy: Result<String, String>)
    ensures
        text_view(copy) == text_view(*text),
{
    match text {
        Ok(t) => Ok(t.clone()),
        Err(e) => Err(e.clone()),
    }
}

/// A copy of `bytes`.
pub fn copy_bytes(bytes: &Vec<u8>) -> (same: Vec<u8>)
    ensures
        same@ == bytes@,
{
    slice_to_vec(bytes.as_slice())
}

/// `front` followed by `back`.
pub fn join2(front: &str, back: &str) -> (text: String)
    ensures
        text@ == front@ + back@,
{
    let mut text = front.to_owned();
    text.append(back);
    text
}

/// The three parts one behind the other.
pub fn join3(a: &str, b: &str, c: &str) -> (text: String)
    ensures
        text@ == a@ + b@ + c@,
{
    let mut text = a.to_owned();
    text.append(b);
    text.append(c);
    text
}

/// The four parts one behind the other.
pub fn join4(a: &str, b: &str, c: &str, d: &str) -> (text: String)
    ensures
        text@ == a@ + b@ + c@ + d@,
{
    let mut text = a.to_owned();
    text.append(b);
    text.append(c);
    text.append(d);
    text
}

/// Nothing of a plain value is lost in its view.
pub proof fn law_views_lose_nothing(text: String, bytes: Vec<u8>, n: i32, part: &str)
    ensures
        done_view(Ok(())) == Ok::<(), Seq<char>>(()),
        done_view(Err(text)) == Err::<(), _>(text@),
        text_view(Ok(text)) == Ok::<_, Seq<char>>(text@),
        text_view(Err(text)) == Err::<Seq<char>, _>(text@),
        bytes_view(Ok(bytes)) == Ok::<_, Seq<char>>(bytes@),
        bytes_view(Err(text)) == Err::<Seq<u8>, _>(text@),
        number_view(Ok(n)) == Ok::<_, Seq<char>>(n),
        number_view(Err::<i32, _>(text)) == Err::<i32, _>(text@),
        maybe_view(Some(text)) == Some(text@),
        maybe_view(None) is None,
        maybe_str_view(Some(part)) == Some(part@),
        maybe_str_view(None) is None,
{
}

} // verus!
