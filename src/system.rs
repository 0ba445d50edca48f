//! Paths reported by the operating system in UTF-16 buffers.
use vstd::prelude::*;
use vstd::slice::slice_subrange;
use crate::text::{decode_utf16, utf16_decode};

verus! {

/// The system directory held in `buffer`, of which the operating system
/// reported `written` units written: `None` when it reported failure (zero)
/// or a directory longer than the buffer.
pub fn system_directory_from(buffer: &[u16], written: u32) -> (r: Option<&[u16]>)
    ensures
        (written == 0 || written > buffer@.len()) ==> (r is None),
        (written != 0 && written <= buffer@.len()) ==> (r matches Some(d) && d@ == buffer@.take(
            written as int,
        )),
{
    if written == 0 || written as usize > buffer.len() {
        None
    } else {
        Some(slice_subrange(buffer, 0, written as usize))
    }
}

/// The path of a module file held in the first `len` units of `buffer`, or
/// `None` when it is not valid UTF-16.
pub fn module_file_path_from(buffer: &[u16], len: usize) -> (r: Option<String>)
    requires
        len <= buffer@.len(),
    ensures
        r matches Some(s) ==> utf16_decode(buffer@.take(len as int)) == Some(s@),
        r is None ==> (utf16_decode(buffer@.take(len as int)) is None),
{
    decode_utf16(slice_subrange(buffer, 0, len))
}

} // verus!
