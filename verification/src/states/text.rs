//! Lengths of texts as they are stored: in bytes of their UTF-8 encoding.

use vstd::prelude::*;
use vstd::utf8::encode_utf8;

verus! {

/// Number of bytes that a text takes when stored.
pub open spec fn byte_len(s: Seq<char>) -> nat {
    encode_utf8(s).len()
}

/// Whether a list of texts has at most `max_items` entries of at most
/// `max_bytes` bytes each.
pub open spec fn list_fits(list: Seq<String>, max_items: nat, max_bytes: nat) -> bool {
    &&& list.len() <= max_items
    &&& forall|i: int| 0 <= i < list.len() ==> byte_len(#[trigger] list[i]@) <= max_bytes
}

/// Number of bytes that `s` takes when stored.
pub fn stored_len(s: &String) -> (r: usize)
    ensures
        r == byte_len(s@),
{
    s.as_str().as_bytes().len()
}

/// Checks that a list of texts has at most `max_items` entries of at most
/// `max_bytes` bytes each.
pub fn check_list_fits(list: &Vec<String>, max_items: usize, max_bytes: usize) -> (r: bool)
    ensures
        r == list_fits(list@, max_items as nat, max_bytes as nat),
{
    if list.len() > max_items {
        return false;
    }
    let mut i: usize = 0;
    while i < list.len()
        invariant
            0 <= i <= list.len(),
            forall|j: int| 0 <= j < i ==> byte_len(#[trigger] list@[j]@) <= max_bytes,
        decreases list.len() - i,
    {
        if stored_len(&list[i]) > max_bytes {
            return false;
        }
        i += 1;
    }
    true
}

} // verus!
