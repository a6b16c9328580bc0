//! A profile together with the user's private key.
use crate::users::user_profile::UserProfile;
use vstd::prelude::*;

verus! {

/// A hosted user's profile and private key, as handed to the user once.
#[derive(Debug, Clone)]
pub struct UserProfileFull {
    pub user_profile: UserProfile,
    pub private_key: String,
}

} // verus!
