use vstd::prelude::*;

verus! {

/// An account holder.
pub struct User {
    pub username: String,
    pub email: String,
    pub sign_in_count: u64,
    pub active: bool,
}

/// A user with the given email and name, not yet active, with a sign-in
/// count of two.
pub fn build_user(email: String, username: String) -> (r: User)
    ensures
        r.email == email,
        r.username == username,
        !r.active,
        r.sign_in_count == 2,
{
    User { email, username, active: false, sign_in_count: 2 }
}

} // verus!
