//! Users of the service.

use vstd::prelude::*;

use crate::clock::{new_uuid_v4, utc_now, uuid_variant_bits, uuid_version, Timestamp};

verus! {

/// A user account.
#[derive(Clone, Debug)]
pub struct User {
    pub id: u128,
    pub email: String,
    pub name: Option<String>,
    pub created_at: Timestamp,
    pub updated_at: Timestamp,
}

impl User {
    /// The user record for a new account whose identifier is `id` and
    /// which was created at `now`: both time stamps are `now`.
    pub fn with_identity(id: u128, now: Timestamp, email: String, name: Option<String>) -> (user:
        User)
        ensures
            user.id == id,
            user.email == email,
            user.name == name,
            user.created_at == now,
            user.updated_at == now,
    {
        User { id, email, name, created_at: now, updated_at: now }
    }

    /// A new user with the given email and name, a fresh random (version 4)
    /// identifier, and both time stamps set to the same current instant:
    /// the record `with_identity` builds from the clock's reading and a
    /// drawn identifier.
    pub fn new(email: String, name: Option<String>) -> (user: User)
        ensures
            user.email == email,
            user.name == name,
            user.created_at == user.updated_at,
            user.created_at.nanos < 2_000_000_000,
            uuid_version(user.id) == 4,
            uuid_variant_bits(user.id) == 2,
    {
        let now = utc_now();
        let id = new_uuid_v4();
        User::with_identity(id, now, email, name)
    }
}

} // verus!
