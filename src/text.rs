use vstd::prelude::*;

use crate::errors::{WinEvtError, WinEvtErrorKind};

verus! {

/// The text that lossy UTF-16 decoding gives for `units`.
pub uninterp spec fn utf16_lossy(units: Seq<u16>) -> Seq<char>;

/// Relies on widestring's `U16Str::to_string_lossy`, which is std's
/// `String::from_utf16_lossy`: the result depends on the units alone, and each
/// unit or surrogate pair gives one character, so it is empty exactly when the
/// units are.
#[verifier::external_body]
pub(crate) fn decode_utf16_lossy(units: &[u16]) -> (r: String)
    ensures
        r@ == utf16_lossy(units@),
        r@.len() == 0 <==> units@.len() == 0,
{
    widestring::U16Str::from_slice(units).to_string_lossy()
}

/// The text that lossy UTF-8 decoding gives for `bytes`.
pub uninterp spec fn utf8_lossy(bytes: Seq<u8>) -> Seq<char>;

/// Relies on std's `String::from_utf8_lossy`: the result depends on the bytes
/// alone, and is empty exactly when they are.
#[verifier::external_body]
pub(crate) fn decode_utf8_lossy(bytes: &[u8]) -> (r: String)
    ensures
        r@ == utf8_lossy(bytes@),
        r@.len() == 0 <==> bytes@.len() == 0,
{
    String::from_utf8_lossy(bytes).into_owned()
}

/// The UTF-16 code units of one character.
pub open spec fn utf16_of_char(c: char) -> Seq<u16> {
    let v = c as u32;
    if v < 0x10000 {
        seq![v as u16]
    } else {
        let w = (v - 0x10000) as u32;
        seq![(0xD800 + w / 0x400) as u16, (0xDC00 + w % 0x400) as u16]
    }
}

/// The UTF-16 code units of a text.
pub open spec fn utf16_of(s: Seq<char>) -> Seq<u16>
    decreases s.len(),
{
    if s.len() == 0 {
        Seq::empty()
    } else {
        utf16_of(s.drop_last()) + utf16_of_char(s.last())
    }
}

/// Relies on widestring's `U16CString::from_str` and `into_vec_with_nul`:
/// the text is encoded as UTF-16, refused when a unit is nul, and otherwise
/// given back with one nul terminator.
#[verifier::external_body]
fn encode_wide_nul(s: &str) -> (r: Option<Vec<u16>>)
    ensures
        r is Some <==> !utf16_of(s@).contains(0u16),
        r is Some ==> r->0@ == utf16_of(s@).push(0u16),
{
    match widestring::U16CString::from_str(s) {
        Ok(w) => Some(w.into_vec_with_nul()),
        Err(_) => None,
    }
}

/// The nul-terminated UTF-16 form of a text handed to the service; a text
/// holding a nul cannot be handed over.
pub fn wide_nul_terminated(s: &str) -> (r: Result<Vec<u16>, WinEvtError>)
    ensures
        r is Ok <==> !utf16_of(s@).contains(0u16),
        r is Ok ==> r->Ok_0@ == utf16_of(s@).push(0u16),
        r is Err ==> r->Err_0@ == WinEvtErrorKind::InvalidEncoding,
{
    match encode_wide_nul(s) {
        Some(v) => Ok(v),
        None => Err(WinEvtError::InvalidEncoding),
    }
}

/// The units without one trailing nul terminator, if there is one.
pub open spec fn without_terminator(units: Seq<u16>) -> Seq<u16> {
    if units.len() > 0 && units.last() == 0 {
        units.drop_last()
    } else {
        units
    }
}

/// The text held by the first `used` units of a filled buffer: one trailing
/// terminator is dropped and the rest is decoded, replacing what is not valid
/// UTF-16. A `used` beyond the buffer is an encoding error.
pub fn text_from_units(units: &[u16], used: usize) -> (r: Result<String, WinEvtError>)
    ensures
        used > units@.len() ==> r is Err && r->Err_0@ == WinEvtErrorKind::InvalidEncoding,
        used <= units@.len() ==> r is Ok && r->Ok_0@ == utf16_lossy(
            without_terminator(units@.take(used as int)),
        ),
        r is Ok ==> (r->Ok_0@.len() == 0 <==> without_terminator(units@.take(used as int)).len()
            == 0),
{
    if used > units.len() {
        return Err(WinEvtError::InvalidEncoding);
    }
    let n: usize = if used > 0 && units[used - 1] == 0 {
        used - 1
    } else {
        used
    };
    let mut kept: Vec<u16> = Vec::with_capacity(n);
    let mut i: usize = 0;
    while i < n
        invariant
            n <= used <= units@.len(),
            i <= n,
            kept@ == units@.take(i as int),
        decreases n - i,
    {
        kept.push(units[i]);
        i = i + 1;
        proof {
            assert(units@.take(i as int) =~= units@.take((i - 1) as int).push(units@[i - 1]));
        }
    }
    proof {
        assert(kept@ =~= without_terminator(units@.take(used as int)));
    }
    Ok(decode_utf16_lossy(kept.as_slice()))
}

} // verus!
