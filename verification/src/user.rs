//! A struct with named fields and a verified constructor.

use vstd::prelude::*;

verus! {

/// An account record: who the user is and how often they have signed in.
pub struct User {
    pub active: bool,
    pub email: String,
    pub username: String,
    pub sign_in_count: u64,
}

/// Builds a fresh, active account for the given address and name,
/// with a sign-in count of one.
pub fn build_user(email: String, username: String) -> (u: User)
    ensures
        u.active == true,
        u.email == email,
        u.username == username,
        u.sign_in_count == 1,
{
    User { email, username, active: true, sign_in_count: 1 }
}

} // verus!
