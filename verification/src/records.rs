//! A plain data record and its builder.

use vstd::prelude::*;

verus! {

/// A user account record.
pub struct User {
    pub name: String,
    pub location: String,
    pub id: i32,
}

/// Builds a user from name and location; new users start with id 0.
pub fn build_user(name: String, location: String) -> (u: User)
    ensures
        u.name == name,
        u.location == location,
        u.id == 0,
{
    User { name, location, id: 0 }
}

} // verus!
