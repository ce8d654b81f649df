use vstd::prelude::*;
use bstr::ByteSlice;
use std::time::{SystemTime, UNIX_EPOCH};

verus! {

/// The text that a byte string stands for when it is read as UTF-8 with
/// every invalid sequence replaced by U+FFFD.
pub uninterp spec fn lossy_text(bytes: Seq<u8>) -> Seq<char>;

/// Reads `bytes` as UTF-8, replacing what is invalid.
///
/// Calls `bstr::ByteSlice::to_str_lossy`. Nothing is proved of it: the
/// contract gives its result the name `lossy_text`, a function of the bytes
/// alone.
#[verifier::external_body]
pub(crate) fn text_of_bytes(bytes: &Vec<u8>) -> (text: String)
    ensures
        text@ == lossy_text(bytes@),
{
    bytes.as_slice().to_str_lossy().into_owned()
}

/// Appends `c` to `s`.
///
/// Calls `String::push`, which puts the character at the end of the string.
#[verifier::external_body]
pub(crate) fn push_char(s: &mut String, c: char)
    ensures
        final(s)@ == old(s)@.push(c),
{
    s.push(c)
}

/// Appends `t` to `s`.
///
/// Calls `String::push_str`, which puts the slice at the end of the string.
#[verifier::external_body]
pub(crate) fn push_text(s: &mut String, t: &str)
    ensures
        final(s)@ == old(s)@ + t@,
{
    s.push_str(t)
}

/// The time since the Unix epoch in nanoseconds, or nothing where the
/// clock reads a time before the epoch.
///
/// Calls `std::time::SystemTime::now` and `duration_since`. The result
/// depends on the clock, so the contract promises nothing of it.
#[verifier::external_body]
pub(crate) fn unix_time_nanos() -> (now: Option<u128>) {
    match SystemTime::now().duration_since(UNIX_EPOCH) {
        Ok(d) => Some(d.as_nanos()),
        Err(_) => None,
    }
}

} // verus!
