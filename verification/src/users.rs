//! A user account record and its constructor.

use vstd::prelude::*;

verus! {

/// A user account: who they are, how to reach them, and their activity.
pub struct User {
    pub username: String,
    pub email: String,
    pub sign_in_count: u64,
    pub active: bool,
}

/// Builds a fresh, active user with the given email and username and a
/// sign-in count of one.
pub fn build_user(email: String, username: String) -> (user: User)
    ensures
        user.email == email,
        user.username == username,
        user.active == true,
        user.sign_in_count == 1,
{
    User { email, username, active: true, sign_in_count: 1 }
}

} // verus!
