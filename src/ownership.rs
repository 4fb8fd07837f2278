use vstd::prelude::*;
use vstd::string::*;
use vstd::utf8::encode_utf8;

verus! {

/// A freshly made string, `"zenus"`, handed to the caller.
pub fn gives_ownership() -> (r: String)
    ensures
        r@ == "zenus"@,
{
    let some_string = String::from_str("zenus");
    some_string
}

/// Hands the string it was given back to the caller unchanged.
pub fn takes_and_gives_back(i_string: String) -> (r: String)
    ensures
        r == i_string,
{
    i_string
}

/// Hands the string back together with its length in bytes.
pub fn calculate_length(string: String) -> (r: (String, usize))
    ensures
        r.0 == string,
        r.1 == encode_utf8(string@).len(),
{
    let length = string.as_str().as_bytes().len();
    (string, length)
}

} // verus!
