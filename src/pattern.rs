//! Byte-pattern scanning.
//!
//! A pattern is text: tokens separated by ASCII whitespace, each either `?`
//! (any byte) or a byte written in base 16. Patterns are parsed and matched by
//! the `patternscan` crate; the scan visits every offset at which the whole
//! pattern fits inside the buffer.
use vstd::prelude::*;
use vstd::slice::slice_subrange;
use patternscan::Pattern;

verus! {

#[verifier::external_type_specification]
#[verifier::external_body]
pub struct ExPattern(patternscan::Pattern);

#[verifier::external_type_specification]
#[verifier::external_body]
pub struct ExPatternScanError(patternscan::Error);

/// The pattern bytes of a parsed pattern, in order; `None` stands for `?`.
pub uninterp spec fn pattern_elements(p: Pattern) -> Seq<Option<u8>>;

/// ASCII whitespace, as `u8::is_ascii_whitespace` defines it.
pub open spec fn is_ascii_whitespace(c: char) -> bool {
    c == ' ' || c == '\t' || c == '\n' || c == '\u{c}' || c == '\r'
}

/// The tokens of `s`, given that `cur` holds the token read so far.
pub open spec fn split_from(s: Seq<char>, cur: Seq<char>) -> Seq<Seq<char>>
    decreases s.len(),
{
    let done = if cur.len() == 0 {
        Seq::<Seq<char>>::empty()
    } else {
        seq![cur]
    };
    if s.len() == 0 {
        done
    } else if is_ascii_whitespace(s[0]) {
        done + split_from(s.drop_first(), Seq::empty())
    } else {
        split_from(s.drop_first(), cur.push(s[0]))
    }
}

/// The maximal runs of non-whitespace characters of `s`, in order.
pub open spec fn tokens(s: Seq<char>) -> Seq<Seq<char>> {
    split_from(s, Seq::empty())
}

pub open spec fn is_hex_digit(c: char) -> bool {
    ('0' <= c && c <= '9') || ('a' <= c && c <= 'f') || ('A' <= c && c <= 'F')
}

pub open spec fn hex_digit_value(c: char) -> int {
    if '0' <= c && c <= '9' {
        c as int - '0' as int
    } else if 'a' <= c && c <= 'f' {
        c as int - 'a' as int + 10
    } else {
        c as int - 'A' as int + 10
    }
}

/// The number written by the base-16 digits `digits`.
pub open spec fn hex_value(digits: Seq<char>) -> int
    decreases digits.len(),
{
    if digits.len() == 0 {
        0
    } else {
        hex_value(digits.drop_last()) * 16 + hex_digit_value(digits.last())
    }
}

/// The number that `from_str_radix(t, 16)` reads, before its range is
/// checked: an optional `+`, then at least one base-16 digit.
pub open spec fn hex_number(t: Seq<char>) -> Option<int> {
    let digits = if t.len() > 0 && t[0] == '+' {
        t.drop_first()
    } else {
        t
    };
    if digits.len() > 0 && forall|i: int| 0 <= i < digits.len() ==> is_hex_digit(#[trigger] digits[i]) {
        Some(hex_value(digits))
    } else {
        None
    }
}

/// `u8::from_str_radix(t, 16)`.
pub open spec fn parse_hex_byte(t: Seq<char>) -> Option<u8> {
    match hex_number(t) {
        Some(v) => if v < 256 {
            Some(v as u8)
        } else {
            None
        },
        None => None,
    }
}

/// One token: `?` is any byte, otherwise a byte in base 16.
pub open spec fn parse_token(t: Seq<char>) -> Option<Option<u8>> {
    if t == seq!['?'] {
        Some(None)
    } else {
        match parse_hex_byte(t) {
            Some(b) => Some(Some(b)),
            None => None,
        }
    }
}

pub open spec fn parse_tokens(ts: Seq<Seq<char>>) -> Option<Seq<Option<u8>>>
    decreases ts.len(),
{
    if ts.len() == 0 {
        Some(Seq::empty())
    } else {
        match (parse_tokens(ts.drop_last()), parse_token(ts.last())) {
            (Some(p), Some(b)) => Some(p.push(b)),
            _ => None,
        }
    }
}

/// The signature that a pattern text stands for, or `None` when it is
/// malformed.
pub open spec fn parse_signature(text: Seq<char>) -> Option<Seq<Option<u8>>> {
    parse_tokens(tokens(text))
}

/// A signature element matches a byte: `None` matches any.
pub open spec fn byte_matches(e: Option<u8>, b: u8) -> bool {
    match e {
        Some(x) => x == b,
        None => true,
    }
}

/// The whole signature fits in `buf` at offset `i` and matches there.
pub open spec fn matches_at(buf: Seq<u8>, sig: Seq<Option<u8>>, i: int) -> bool {
    &&& 0 <= i
    &&& i + sig.len() <= buf.len()
    &&& forall|j: int| 0 <= j < sig.len() ==> byte_matches(#[trigger] sig[j], buf[i + j])
}

/// `found` is the first offset at which `sig` matches, or `None` when it
/// matches nowhere.
pub open spec fn is_first_match(buf: Seq<u8>, sig: Seq<Option<u8>>, found: Option<usize>) -> bool {
    match found {
        Some(i) => matches_at(buf, sig, i as int) && forall|j: int|
            0 <= j < i ==> !#[trigger] matches_at(buf, sig, j),
        None => forall|j: int| !#[trigger] matches_at(buf, sig, j),
    }
}

/// The offsets below `n` at which `sig` matches, in increasing order.
pub open spec fn matches_below(buf: Seq<u8>, sig: Seq<Option<u8>>, n: int) -> Seq<usize>
    decreases n,
{
    if n <= 0 {
        Seq::empty()
    } else if matches_at(buf, sig, n - 1) {
        matches_below(buf, sig, n - 1).push((n - 1) as usize)
    } else {
        matches_below(buf, sig, n - 1)
    }
}

/// Every offset at which `sig` matches, in increasing order.
pub open spec fn all_matches(buf: Seq<u8>, sig: Seq<Option<u8>>) -> Seq<usize> {
    matches_below(buf, sig, buf.len() + 1int)
}

proof fn lemma_matches_below_bounds(buf: Seq<u8>, sig: Seq<Option<u8>>, n: int)
    ensures
        forall|k: int|
            0 <= k < matches_below(buf, sig, n).len() ==> #[trigger] matches_below(buf, sig, n)[k]
                <= buf.len(),
    decreases n,
{
    if n > 0 {
        lemma_matches_below_bounds(buf, sig, n - 1);
        let prev = matches_below(buf, sig, n - 1);
        let cur = matches_below(buf, sig, n);
        assert forall|k: int| 0 <= k < cur.len() implies #[trigger] cur[k] <= buf.len() by {
            if k < prev.len() {
                assert(cur[k] == prev[k]);
            }
        }
    }
}

/// Each offset of `all_matches` lies within the buffer or at its end.
pub(crate) proof fn lemma_all_matches_in_bounds(buf: Seq<u8>, sig: Seq<Option<u8>>, offsets: Seq<usize>, i: int)
    requires
        offsets == all_matches(buf, sig),
        0 <= i < offsets.len(),
    ensures
        offsets[i] <= buf.len(),
{
    lemma_matches_below_bounds(buf, sig, buf.len() + 1int);
}

/// Why a scan found nothing.
#[derive(Debug, Clone, Copy, PartialEq, Eq, Structural)]
pub enum ScanError {
    /// The pattern text is malformed.
    InvalidPattern,
    /// The pattern matches nowhere.
    NotFound,
}

/// Relies on `<patternscan::Pattern as FromStr>::from_str`: the text is
/// split with `str::split_ascii_whitespace`, a `?` token stands for any byte,
/// any other token is read by `u8::from_str_radix(token, 16)`, and the first
/// token that cannot be read makes it fail.
#[verifier::external_body]
fn parse_pattern(text: &str) -> (r: Result<Pattern, patternscan::Error>)
    ensures
        r matches Ok(p) ==> parse_signature(text@) == Some(pattern_elements(p)),
        r is Err ==> (parse_signature(text@) is None),
{
    text.parse::<Pattern>()
}

/// Relies on `patternscan::pattern_matches`: false when `bytes` is shorter
/// than the pattern, otherwise whether each pattern byte matches the byte of
/// `bytes` at the same place.
#[verifier::external_body]
fn pattern_matches_start(bytes: &[u8], pattern: &Pattern) -> (r: bool)
    ensures
        r == matches_at(bytes@, pattern_elements(*pattern), 0),
{
    patternscan::pattern_matches(bytes, pattern)
}

/// Whether `pattern` matches `buffer` at offset `i`.
fn matches_at_offset(buffer: &[u8], pattern: &Pattern, i: usize) -> (r: bool)
    requires
        i <= buffer@.len(),
    ensures
        r == matches_at(buffer@, pattern_elements(*pattern), i as int),
{
    let rest = slice_subrange(buffer, i, buffer.len());
    let r = pattern_matches_start(rest, pattern);
    let ghost sig = pattern_elements(*pattern);
    assert(rest@ =~= buffer@.subrange(i as int, buffer@.len() as int));
    proof {
        if r {
            assert forall|j: int| 0 <= j < sig.len() implies byte_matches(
                #[trigger] sig[j],
                buffer@[i + j],
            ) by {
                assert(byte_matches(sig[j], rest@[0 + j]));
            }
        }
        if matches_at(buffer@, sig, i as int) {
            assert forall|j: int| 0 <= j < sig.len() implies byte_matches(
                #[trigger] sig[j],
                rest@[0 + j],
            ) by {
                assert(byte_matches(sig[j], buffer@[i + j]));
            }
        }
    }
    r
}

/// The first offset of `buffer` at which `pattern` matches, `None` when it
/// matches nowhere, or an error when the pattern is malformed.
pub fn scan_first(buffer: &[u8], pattern: &str) -> (r: Result<Option<usize>, ScanError>)
    ensures
        parse_signature(pattern@) is None ==> r == Err::<Option<usize>, ScanError>(
            ScanError::InvalidPattern,
        ),
        parse_signature(pattern@) matches Some(sig) ==> r matches Ok(found) && is_first_match(
            buffer@,
            sig,
            found,
        ),
{
    let p = match parse_pattern(pattern) {
        Ok(p) => p,
        Err(_) => {
            return Err(ScanError::InvalidPattern);
        },
    };
    let ghost sig = pattern_elements(p);
    let n = buffer.len();
    let mut i: usize = 0;
    loop
        invariant
            i <= n == buffer@.len(),
            sig == pattern_elements(p),
            parse_signature(pattern@) == Some(sig),
            forall|j: int| 0 <= j < i ==> !#[trigger] matches_at(buffer@, sig, j),
        decreases n - i,
    {
        if matches_at_offset(buffer, &p, i) {
            return Ok(Some(i));
        }
        if i == n {
            assert forall|j: int| !#[trigger] matches_at(buffer@, sig, j) by {
                if j > n {
                    assert(j + sig.len() > buffer@.len());
                }
            }
            return Ok(None);
        }
        i = i + 1;
    }
}

/// Every offset of `buffer` at which `pattern` matches, in increasing order,
/// or an error when the pattern is malformed.
pub fn scan_all(buffer: &[u8], pattern: &str) -> (r: Result<Vec<usize>, ScanError>)
    ensures
        parse_signature(pattern@) is None ==> r == Err::<Vec<usize>, ScanError>(
            ScanError::InvalidPattern,
        ),
        parse_signature(pattern@) matches Some(sig) ==> r matches Ok(v) && v@ == all_matches(
            buffer@,
            sig,
        ),
{
    let p = match parse_pattern(pattern) {
        Ok(p) => p,
        Err(_) => {
            return Err(ScanError::InvalidPattern);
        },
    };
    let ghost sig = pattern_elements(p);
    let n = buffer.len();
    let mut out: Vec<usize> = Vec::new();
    let mut i: usize = 0;
    loop
        invariant
            i <= n == buffer@.len(),
            sig == pattern_elements(p),
            parse_signature(pattern@) == Some(sig),
            out@ == matches_below(buffer@, sig, i as int),
        decreases n - i,
    {
        if matches_at_offset(buffer, &p, i) {
            out.push(i);
        }
        if i == n {
            return Ok(out);
        }
        i = i + 1;
    }
}

/// A signature of plain bytes, without wildcards.
pub open spec fn exact_signature(bytes: Seq<u8>) -> Seq<Option<u8>> {
    bytes.map_values(|b: u8| Some(b))
}

/// For a signature without wildcards, a match at `i` is exactly an equal run
/// of bytes at `i`; so the first match is the smallest offset where the bytes
/// appear.
pub proof fn lemma_exact_signature_matches(buf: Seq<u8>, bytes: Seq<u8>, i: int)
    ensures
        matches_at(buf, exact_signature(bytes), i) <==> (0 <= i && i + bytes.len() <= buf.len()
            && buf.subrange(i, i + bytes.len()) == bytes),
{
    let sig = exact_signature(bytes);
    if matches_at(buf, sig, i) {
        assert forall|j: int| 0 <= j < bytes.len() implies buf.subrange(i, i + bytes.len())[j]
            == bytes[j] by {
            assert(byte_matches(sig[j], buf[i + j]));
        }
        assert(buf.subrange(i, i + bytes.len()) =~= bytes);
    }
    if 0 <= i && i + bytes.len() <= buf.len() && buf.subrange(i, i + bytes.len()) == bytes {
        assert forall|j: int| 0 <= j < sig.len() implies byte_matches(#[trigger] sig[j], buf[i + j]) by {
            assert(buf.subrange(i, i + bytes.len())[j] == buf[i + j]);
        }
    }
}

} // verus!
