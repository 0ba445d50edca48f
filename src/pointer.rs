//! A non-null address, written as `0x` followed by uppercase hexadecimal.
use vstd::prelude::*;
use vstd::string::StrSliceExecFns;
use crate::pattern::hex_number;

verus! {

/// An address that is not zero.
#[derive(Debug, Clone, Copy, PartialEq, Eq, Structural)]
pub struct NonNullPtr {
    address: usize,
}

/// Why a text is not a pointer.
#[derive(Debug, Clone, Copy, PartialEq, Eq, Structural)]
pub enum PointerParseError {
    /// The text after its first two characters is not a base-16 `usize`.
    InvalidNumber,
    /// The number is zero.
    Null,
}

/// `usize::from_str_radix(t, 16)`.
pub open spec fn parse_hex_usize(t: Seq<char>) -> Option<usize> {
    match hex_number(t) {
        Some(v) => if v <= usize::MAX {
            Some(v as usize)
        } else {
            None
        },
        None => None,
    }
}

pub open spec fn upper_hex_digit(d: int) -> char {
    if d < 10 {
        (d + '0' as int) as char
    } else {
        (d - 10 + 'A' as int) as char
    }
}

/// The uppercase base-16 digits of `v`, without leading zeros.
pub open spec fn upper_hex_digits(v: nat) -> Seq<char>
    decreases v,
{
    if v < 16 {
        seq![upper_hex_digit(v as int)]
    } else {
        upper_hex_digits(v / 16).push(upper_hex_digit((v % 16) as int))
    }
}

/// Relies on `usize::from_str_radix` in base 16.
#[verifier::external_body]
fn usize_from_hex(t: &str) -> (r: Option<usize>)
    ensures
        r == parse_hex_usize(t@),
{
    usize::from_str_radix(t, 16).ok()
}

/// Relies on the `{:#X}` format: `0x`, then the uppercase digits of `v`.
#[verifier::external_body]
fn format_upper_hex(v: usize) -> (r: String)
    ensures
        r@ == seq!['0', 'x'] + upper_hex_digits(v as nat),
{
    format!("{:#X}", v)
}

impl NonNullPtr {
    pub closed spec fn view(&self) -> usize {
        self.address
    }

    #[verifier::type_invariant]
    closed spec fn inv(&self) -> bool {
        self.address != 0
    }

    /// The pointer to `inner`, or `None` when it is zero.
    pub fn new(inner: usize) -> (r: Option<Self>)
        ensures
            inner == 0 ==> (r is None),
            inner != 0 ==> (r matches Some(p) && p@ == inner),
    {
        if inner == 0 {
            None
        } else {
            Some(NonNullPtr { address: inner })
        }
    }

    /// The pointer to `inner`, which is not zero.
    pub fn from_address(inner: usize) -> (r: Self)
        requires
            inner != 0,
        ensures
            r@ == inner,
    {
        NonNullPtr { address: inner }
    }

    /// The address.
    pub fn address(&self) -> (r: usize)
        ensures
            r == self@,
            r != 0,
    {
        proof {
            use_type_invariant(self);
        }
        self.address
    }

    /// The address as text: `0x`, then uppercase hexadecimal digits.
    pub fn to_hex_string(&self) -> (r: String)
        ensures
            r@ == seq!['0', 'x'] + upper_hex_digits(self@ as nat),
    {
        format_upper_hex(self.address)
    }

    /// Reads a pointer from text: the first two characters (a `0x` prefix)
    /// are skipped and the rest is read in base 16.
    pub fn parse_hex(text: &str) -> (r: Result<Self, PointerParseError>)
        ensures
            text@.len() < 2 ==> r == Err::<Self, PointerParseError>(PointerParseError::InvalidNumber),
            text@.len() >= 2 ==> match parse_hex_usize(text@.skip(2)) {
                None => r == Err::<Self, PointerParseError>(PointerParseError::InvalidNumber),
                Some(v) => if v == 0 {
                    r == Err::<Self, PointerParseError>(PointerParseError::Null)
                } else {
                    r matches Ok(p) && p@ == v
                },
            },
    {
        let n = text.unicode_len();
        if n < 2 {
            return Err(PointerParseError::InvalidNumber);
        }
        let digits = text.substring_char(2, n);
        assert(digits@ == text@.skip(2));
        match usize_from_hex(digits) {
            None => Err(PointerParseError::InvalidNumber),
            Some(0) => Err(PointerParseError::Null),
            Some(v) => Ok(NonNullPtr { address: v }),
        }
    }
}

} // verus!
