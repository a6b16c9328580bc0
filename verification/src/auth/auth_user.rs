//! A user's login record.
use vstd::prelude::*;

verus! {

/// A login record: id, name, password hash and public key.
#[derive(Debug)]
pub struct AuthUser {
    pub id: i64,
    pub username: String,
    pub password_hash: String,
    pub public_key: String,
}

impl AuthUser {
    /// The record with the given fields.
    pub fn new(id: i64, username: String, password_hash: String, public_key: String) -> (r: Self)
        ensures
            r.id == id,
            r.username@ == username@,
            r.password_hash@ == password_hash@,
            r.public_key@ == public_key@,
    {
        AuthUser { id, username, password_hash, public_key }
    }
}

} // verus!
