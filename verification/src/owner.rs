//! Verified demonstrations of ownership transfer: functions that create,
//! take and return owned strings.

use vstd::prelude::*;

verus! {

/// Creates a string and moves it out to the caller.
pub fn gives_ownership() -> (r: String)
    ensures
        r@ == "yours"@,
{
    let some_string = String::from_str("yours");
    some_string
}

/// Takes ownership of a string and returns the very same string.
pub fn takes_and_gives_back(a_string: String) -> (r: String)
    ensures
        r == a_string,
{
    a_string
}

/// Returns a string together with its length in characters, handing
/// ownership of the string back to the caller as the first tuple element.
pub fn calculate_length(s: String) -> (r: (String, usize))
    ensures
        r.0 == s,
        r.1 as nat == s@.len(),
{
    let length = s.as_str().unicode_len();
    (s, length)
}

} // verus!
