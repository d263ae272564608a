//! Verified demonstrations of borrowing: reading through a shared reference
//! and appending through a mutable one.

use vstd::prelude::*;

verus! {

/// Length in characters of the borrowed string; the string itself is untouched.
pub fn calculate_length(s: &String) -> (len: usize)
    ensures
        len as nat == s@.len(),
{
    s.as_str().unicode_len()
}

/// Appends a fixed suffix to the borrowed string.
pub fn change(some_string: &mut String)
    ensures
        final(some_string)@ == old(some_string)@ + ", worldo"@,
{
    some_string.append(", worldo");
}

/// Returns a freshly created string; ownership moves out, so nothing dangles.
pub fn no_dangle() -> (s: String)
    ensures
        s@ == "hello"@,
{
    String::from_str("hello")
}

} // verus!
