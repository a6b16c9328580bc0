//! The profile the authentication service returns for a user.
use crate::data::communication::{CommunicationModel, CommunicationType, CommunicationValue, DataTypes};
use crate::text::{parse_i32, parse_i32_spec, parse_i64, parse_i64_spec};
use vstd::prelude::*;

verus! {

/// A user's public profile at the authentication service.
#[derive(Debug, Clone)]
pub struct AuthUser {
    pub created_at: i64,
    pub username: String,
    pub display: String,
    pub avatar: String,
    pub about: String,
    pub status: String,
    pub public_key: String,
    pub sub_level: i32,
    pub sub_end: i32,
}

/// The payload keys a successful profile answer carries.
pub open spec fn has_profile_keys(m: CommunicationModel) -> bool {
    &&& m.data.contains_key(DataTypes::CreatedAt)
    &&& m.data.contains_key(DataTypes::Username)
    &&& m.data.contains_key(DataTypes::Display)
    &&& m.data.contains_key(DataTypes::Avatar)
    &&& m.data.contains_key(DataTypes::About)
    &&& m.data.contains_key(DataTypes::Status)
    &&& m.data.contains_key(DataTypes::PublicKey)
    &&& m.data.contains_key(DataTypes::SubLevel)
    &&& m.data.contains_key(DataTypes::SubEnd)
}

/// A number read from text, or -1 when the text is no `i64`.
pub open spec fn i64_or_minus_one(s: Seq<char>) -> i64 {
    match parse_i64_spec(s) {
        Some(v) => v,
        None => -1i64,
    }
}

/// A number read from text, or -1 when the text is no `i32`.
pub open spec fn i32_or_minus_one(s: Seq<char>) -> i32 {
    match parse_i32_spec(s) {
        Some(v) => v,
        None => -1i32,
    }
}

/// The payload entry `key` of a message that holds it.
fn entry(cv: &CommunicationValue, key: DataTypes) -> (r: String)
    requires
        cv@.data.contains_key(key),
    ensures
        r@ == cv@.data[key],
{
    match cv.get_data(key) {
        Some(v) => v.clone(),
        None => String::new(),
    }
}

/// The profile an answer of the authentication service describes: `None`
/// unless the answer is a `Success`; numbers that do not parse read as -1.
pub fn user_from_response(cv: &CommunicationValue) -> (r: Option<AuthUser>)
    requires
        cv@.comm_type == CommunicationType::Success ==> has_profile_keys(cv@),
    ensures
        r is Some <==> cv@.comm_type == CommunicationType::Success,
        r matches Some(u) ==> {
            &&& u.created_at == i64_or_minus_one(cv@.data[DataTypes::CreatedAt])
            &&& u.username@ == cv@.data[DataTypes::Username]
            &&& u.display@ == cv@.data[DataTypes::Display]
            &&& u.avatar@ == cv@.data[DataTypes::Avatar]
            &&& u.about@ == cv@.data[DataTypes::About]
            &&& u.status@ == cv@.data[DataTypes::Status]
            &&& u.public_key@ == cv@.data[DataTypes::PublicKey]
            &&& u.sub_level == i32_or_minus_one(cv@.data[DataTypes::SubLevel])
            &&& u.sub_end == i32_or_minus_one(cv@.data[DataTypes::SubEnd])
        },
{
    if !cv.is_type(CommunicationType::Success) {
        return None;
    }
    let created = entry(cv, DataTypes::CreatedAt);
    let level = entry(cv, DataTypes::SubLevel);
    let end = entry(cv, DataTypes::SubEnd);
    Some(
        AuthUser {
            created_at: match parse_i64(created.as_str()) {
                Some(v) => v,
                None => -1,
            },
            username: entry(cv, DataTypes::Username),
            display: entry(cv, DataTypes::Display),
            avatar: entry(cv, DataTypes::Avatar),
            about: entry(cv, DataTypes::About),
            status: entry(cv, DataTypes::Status),
            public_key: entry(cv, DataTypes::PublicKey),
            sub_level: match parse_i32(level.as_str()) {
                Some(v) => v,
                None => -1,
            },
            sub_end: match parse_i32(end.as_str()) {
                Some(v) => v,
                None => -1,
            },
        },
    )
}

} // verus!
