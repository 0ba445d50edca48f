//! The environment block handed to a new process.
use vstd::prelude::*;

verus! {

/// The UTF-16 encoding of `c`.
pub open spec fn utf16_encode_char(c: char) -> Seq<u16> {
    let v = c as int;
    if v < 0x10000 {
        seq![v as u16]
    } else {
        seq![(0xD800 + (v - 0x10000) / 0x400) as u16, (0xDC00 + (v - 0x10000) % 0x400) as u16]
    }
}

/// The UTF-16 encoding of `s`.
pub open spec fn utf16_encode(s: Seq<char>) -> Seq<u16>
    decreases s.len(),
{
    if s.len() == 0 {
        Seq::empty()
    } else {
        utf16_encode(s.drop_last()) + utf16_encode_char(s.last())
    }
}

/// The block entry of one variable: `name=value`, NUL-terminated.
pub open spec fn env_entry(name: Seq<char>, value: Seq<char>) -> Seq<u16> {
    utf16_encode(name) + seq![0x3Du16] + utf16_encode(value) + seq![0u16]
}

/// The entries of the first variables of `vars`, in order.
pub open spec fn env_entries(vars: Seq<(String, String)>) -> Seq<u16>
    decreases vars.len(),
{
    if vars.len() == 0 {
        Seq::empty()
    } else {
        env_entries(vars.drop_last()) + env_entry(vars.last().0@, vars.last().1@)
    }
}

/// Relies on `str::encode_utf16`: the UTF-16 encoding of `s`.
#[verifier::external_body]
fn encode_utf16(s: &str) -> (r: Vec<u16>)
    ensures
        r@ == utf16_encode(s@),
{
    s.encode_utf16().collect()
}

/// The Unicode environment block for `vars`: each variable as
/// `name=value` followed by a NUL, and one more NUL at the end.
pub fn environment_block(vars: &[(String, String)]) -> (r: Vec<u16>)
    ensures
        r@ == env_entries(vars@) + seq![0u16],
{
    let mut out: Vec<u16> = Vec::new();
    let mut i: usize = 0;
    while i < vars.len()
        invariant
            i <= vars@.len(),
            out@ == env_entries(vars@.take(i as int)),
        decreases vars@.len() - i,
    {
        let ghost before = out@;
        let name = encode_utf16(vars[i].0.as_str());
        let value = encode_utf16(vars[i].1.as_str());
        let mut k: usize = 0;
        while k < name.len()
            invariant
                k <= name@.len(),
                out@ == before + name@.take(k as int),
            decreases name@.len() - k,
        {
            out.push(name[k]);
            assert(name@.take(k + 1) =~= name@.take(k as int).push(name@[k as int]));
            k = k + 1;
        }
        out.push(0x3D);
        let ghost mid = out@;
        k = 0;
        while k < value.len()
            invariant
                k <= value@.len(),
                out@ == mid + value@.take(k as int),
            decreases value@.len() - k,
        {
            out.push(value[k]);
            assert(value@.take(k + 1) =~= value@.take(k as int).push(value@[k as int]));
            k = k + 1;
        }
        out.push(0);
        assert(name@.take(name@.len() as int) =~= name@);
        assert(value@.take(value@.len() as int) =~= value@);
        assert(vars@.take(i + 1).drop_last() =~= vars@.take(i as int));
        assert(out@ =~= before + env_entry(vars@[i as int].0@, vars@[i as int].1@));
        i = i + 1;
    }
    assert(vars@.take(i as int) =~= vars@);
    out.push(0);
    out
}

} // verus!
