use vstd::prelude::*;
use vstd::string::*;
use vstd::utf8::*;

verus! {

/// The byte of an ASCII space.
pub const SPACE: u8 = 32;

/// `k` is where the first word of `b` ends: the position of its first space,
/// or its length when it has none.
pub open spec fn ends_first_word(b: Seq<u8>, k: int) -> bool {
    &&& 0 <= k <= b.len()
    &&& forall|j: int| 0 <= j < k ==> b[j] != SPACE
    &&& k < b.len() ==> b[k] == SPACE
}

/// The byte position where the first word of `s` ends.
fn space_position(s: &str) -> (r: usize)
    ensures
        ends_first_word(s.spec_bytes(), r as int),
{
    let bytes = s.as_bytes();
    let mut i: usize = 0;
    while i < bytes.len()
        invariant
            bytes@ == s.spec_bytes(),
            i <= bytes@.len(),
            forall|j: int| 0 <= j < i ==> bytes@[j] != SPACE,
        decreases bytes@.len() - i,
    {
        if bytes[i] == SPACE {
            return i;
        }
        i = i + 1;
    }
    i
}

/// The first word of a string slice: everything before its first space, or
/// all of it when it has no space.
pub fn first_word_slice_as_parameter(s: &str) -> (r: &str)
    ensures
        exists|k: int|
            ends_first_word(s.spec_bytes(), k) && r.spec_bytes() == s.spec_bytes().subrange(0, k),
{
    let i = space_position(s);
    let ghost b = s.spec_bytes();
    proof {
        encode_utf8_valid_utf8(s@);
        is_char_boundary_start_end_of_seq(b);
        if i < b.len() {
            is_char_boundary_iff_not_is_continuation_byte(b, i as int);
        }
    }
    let (head, _) = s.split_at(i);
    head
}

/// The first word of a string, as a slice of it.
pub fn first_word_slice(s: &String) -> (r: &str)
    ensures
        exists|k: int|
            ends_first_word(encode_utf8(s@), k) && r.spec_bytes() == encode_utf8(s@).subrange(0, k),
{
    first_word_slice_as_parameter(s.as_str())
}

/// The byte position where the first word of a string ends.
pub fn first_word(s: &String) -> (r: usize)
    ensures
        ends_first_word(encode_utf8(s@), r as int),
{
    space_position(s.as_str())
}

} // verus!
