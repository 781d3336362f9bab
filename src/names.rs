use vstd::prelude::*;
use vstd::utf8::{decode_utf8, valid_utf8};

use crate::ParserError;

verus! {

/// Where the name that starts at `i` in the table `t` ends: at the first zero
/// byte from `i` on, or at the end of the table.
pub open spec fn name_end(t: Seq<u8>, i: int) -> int
    decreases t.len() - i,
{
    if i < 0 || i >= t.len() || t[i] == 0 {
        i
    } else {
        name_end(t, i + 1)
    }
}

/// The bytes of the name that starts at `i` in the table `t`.
pub open spec fn name_bytes(t: Seq<u8>, i: int) -> Seq<u8> {
    t.subrange(i, name_end(t, i))
}

/// The text that lossy UTF-8 decoding makes of `b`.
pub uninterp spec fn utf8_lossy(b: Seq<u8>) -> Seq<char>;

/// Relies on `String::from_utf8_lossy`: the result depends on the bytes alone,
/// and valid UTF-8 comes back as the text it encodes.
#[verifier::external_body]
fn decode_lossy(b: &[u8]) -> (r: String)
    ensures
        r@ == utf8_lossy(b@),
        valid_utf8(b@) ==> r@ == decode_utf8(b@),
{
    String::from_utf8_lossy(b).into_owned()
}

/// The name that starts at `index` in the string table `table`, up to its zero
/// byte or the end of the table, decoded lossily.
pub fn get_section_name(table: &[u8], index: usize) -> (r: Result<String, ParserError>)
    ensures
        index < table@.len() ==> (r matches Ok(s) && s@ == utf8_lossy(
            name_bytes(table@, index as int),
        )),
        index >= table@.len() ==> r == Err::<String, ParserError>(ParserError::OutOfBounds),
{
    if index >= table.len() {
        return Err(ParserError::OutOfBounds);
    }
    let mut end: usize = index;
    while end < table.len() && table[end] != 0
        invariant
            index <= end <= table@.len(),
            name_end(table@, index as int) == name_end(table@, end as int),
        decreases table@.len() - end,
    {
        end += 1;
    }
    let bytes = vstd::slice::slice_subrange(table, index, end);
    Ok(decode_lossy(bytes))
}

} // verus!
