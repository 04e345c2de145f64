//! A user account record and a few plain tuple and unit types.
use vstd::prelude::*;

verus! {

#[derive(Debug)]
pub struct User {
    pub active: bool,
    pub username: String,
    pub email: String,
    pub sign_in_count: u64,
}

/// Three colour channels.
#[derive(Debug, Clone, Copy, PartialEq, Eq, Structural)]
pub struct Color(pub i32, pub i32, pub i32);

/// A point in three dimensions.
#[derive(Debug, Clone, Copy, PartialEq, Eq, Structural)]
pub struct Point(pub i32, pub i32, pub i32);

/// A type with no data.
#[derive(Debug, Clone, Copy, PartialEq, Eq, Structural)]
pub struct AlwaysEqual;

/// A fresh account: active, signed in once, with the given email and name.
pub fn build_user(email: String, username: String) -> (r: User)
    ensures
        r.active,
        r.username@ == username@,
        r.email@ == email@,
        r.sign_in_count == 1,
{
    User { active: true, username, email, sign_in_count: 1 }
}

} // verus!
