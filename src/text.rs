//! Text held in fixed-width, NUL-padded UTF-16 fields.
use vstd::prelude::*;
use vstd::slice::slice_subrange;

verus! {

pub open spec fn is_high_surrogate(u: u16) -> bool {
    0xD800 <= u && u <= 0xDBFF
}

pub open spec fn is_low_surrogate(u: u16) -> bool {
    0xDC00 <= u && u <= 0xDFFF
}

/// The character of the surrogate pair `hi`, `lo`.
pub open spec fn pair_char(hi: u16, lo: u16) -> char {
    (0x10000 + (hi - 0xD800) * 0x400 + (lo - 0xDC00)) as char
}

/// UTF-16 decoding; `None` when `units` holds an unpaired surrogate.
pub open spec fn utf16_decode(units: Seq<u16>) -> Option<Seq<char>>
    decreases units.len(),
{
    if units.len() == 0 {
        Some(Seq::empty())
    } else if !is_high_surrogate(units[0]) && !is_low_surrogate(units[0]) {
        match utf16_decode(units.drop_first()) {
            Some(rest) => Some(seq![units[0] as char] + rest),
            None => None,
        }
    } else if is_high_surrogate(units[0]) && units.len() >= 2 && is_low_surrogate(units[1]) {
        match utf16_decode(units.skip(2)) {
            Some(rest) => Some(seq![pair_char(units[0], units[1])] + rest),
            None => None,
        }
    } else {
        None
    }
}

/// UTF-16 decoding in which each unpaired surrogate becomes U+FFFD.
pub open spec fn utf16_decode_lossy(units: Seq<u16>) -> Seq<char>
    decreases units.len(),
{
    if units.len() == 0 {
        Seq::empty()
    } else if !is_high_surrogate(units[0]) && !is_low_surrogate(units[0]) {
        seq![units[0] as char] + utf16_decode_lossy(units.drop_first())
    } else if is_high_surrogate(units[0]) && units.len() >= 2 && is_low_surrogate(units[1]) {
        seq![pair_char(units[0], units[1])] + utf16_decode_lossy(units.skip(2))
    } else {
        seq!['\u{FFFD}'] + utf16_decode_lossy(units.drop_first())
    }
}

/// The units of a NUL-padded field before its first NUL.
pub open spec fn until_nul(units: Seq<u16>) -> Seq<u16>
    decreases units.len(),
{
    if units.len() == 0 || units[0] == 0 {
        Seq::empty()
    } else {
        seq![units[0]] + until_nul(units.drop_first())
    }
}

/// Relies on `String::from_utf16`: the UTF-16 decoding of `units`, or an
/// error when they hold an unpaired surrogate.
#[verifier::external_body]
pub(crate) fn decode_utf16(units: &[u16]) -> (r: Option<String>)
    ensures
        r matches Some(s) ==> utf16_decode(units@) == Some(s@),
        r is None ==> (utf16_decode(units@) is None),
{
    String::from_utf16(units).ok()
}

/// Relies on `String::from_utf16_lossy`: the UTF-16 decoding of `units`, with
/// U+FFFD in place of each unpaired surrogate.
#[verifier::external_body]
fn decode_utf16_lossy(units: &[u16]) -> (r: String)
    ensures
        r@ == utf16_decode_lossy(units@),
{
    String::from_utf16_lossy(units)
}

/// The part of a NUL-padded field before its first NUL.
pub fn field_units(field: &[u16]) -> (r: &[u16])
    ensures
        r@ == until_nul(field@),
{
    let mut i: usize = 0;
    assert(field@.skip(0) =~= field@);
    assert(field@.take(0) + until_nul(field@) =~= until_nul(field@));
    while i < field.len() && field[i] != 0
        invariant
            i <= field@.len(),
            forall|j: int| 0 <= j < i ==> field@[j] != 0,
            until_nul(field@) == field@.take(i as int) + until_nul(field@.skip(i as int)),
        decreases field@.len() - i,
    {
        assert(field@.skip(i as int).drop_first() =~= field@.skip(i + 1));
        assert(field@.take(i as int) + seq![field@[i as int]] =~= field@.take(i + 1));
        assert(until_nul(field@.skip(i as int)) == seq![field@[i as int]] + until_nul(
            field@.skip(i + 1),
        ));
        assert(field@.take(i as int) + (seq![field@[i as int]] + until_nul(field@.skip(i + 1)))
            =~= field@.take(i + 1) + until_nul(field@.skip(i + 1)));
        i = i + 1;
    }
    assert(until_nul(field@.skip(i as int)) =~= Seq::<u16>::empty());
    assert(field@.take(i as int) + Seq::<u16>::empty() =~= field@.take(i as int));
    slice_subrange(field, 0, i)
}

/// The text of a NUL-padded field, or `None` when it is not valid UTF-16.
pub fn field_text(field: &[u16]) -> (r: Option<String>)
    ensures
        r matches Some(s) ==> utf16_decode(until_nul(field@)) == Some(s@),
        r is None ==> (utf16_decode(until_nul(field@)) is None),
{
    decode_utf16(field_units(field))
}

/// The text of a NUL-padded field, with U+FFFD in place of each unpaired
/// surrogate.
pub fn field_text_lossy(field: &[u16]) -> (r: String)
    ensures
        r@ == utf16_decode_lossy(until_nul(field@)),
{
    decode_utf16_lossy(field_units(field))
}

} // verus!
