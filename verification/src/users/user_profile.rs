//! The profile of a user hosted on this node.
use crate::clock::unix_now_millis;
use crate::crypto::{base64_encode, base64_text, random_bytes};
use crate::data::json_value::{
    from_i64, i64_member, i64_of, lemma_i64_number, lemma_member_absent, lemma_member_at, member, named, number_of,
    text_is, text_member, text_of, text_value, Json,
};
use vstd::prelude::*;

verus! {

/// A hosted user: ids, keys, the reset token and an optional display name.
#[derive(Debug)]
pub struct UserProfile {
    pub user_id: i64,
    pub username: String,
    pub public_key: String,
    pub private_key_hash: String,
    pub reset_token: String,
    pub created_at: i64,
    pub display_name: Option<String>,
}

/// What a `UserProfile` holds, as plain values.
pub struct UserProfileModel {
    pub user_id: i64,
    pub username: Seq<char>,
    pub public_key: Seq<char>,
    pub private_key_hash: Seq<char>,
    pub reset_token: Seq<char>,
    pub created_at: i64,
    pub display_name: Option<Seq<char>>,
}

/// The view of an optional string.
pub open spec fn opt_text(s: Option<String>) -> Option<Seq<char>> {
    match s {
        Some(t) => Some(t@),
        None => None,
    }
}

impl View for UserProfile {
    type V = UserProfileModel;

    open spec fn view(&self) -> UserProfileModel {
        UserProfileModel {
            user_id: self.user_id,
            username: self.username@,
            public_key: self.public_key@,
            private_key_hash: self.private_key_hash@,
            reset_token: self.reset_token@,
            created_at: self.created_at,
            display_name: opt_text(self.display_name),
        }
    }
}

/// The name a user is shown by: the display name if set, else the username.
pub open spec fn display_name_of(p: UserProfileModel) -> Seq<char> {
    match p.display_name {
        Some(d) => d,
        None => p.username,
    }
}

/// A copy of an optional string.
pub fn clone_opt(s: &Option<String>) -> (r: Option<String>)
    ensures
        opt_text(r) == opt_text(*s),
{
    match s {
        Some(t) => Some(t.clone()),
        None => None,
    }
}

impl Clone for UserProfile {
    fn clone(&self) -> (r: Self)
        ensures
            r@ == self@,
    {
        UserProfile {
            user_id: self.user_id,
            username: self.username.clone(),
            public_key: self.public_key.clone(),
            private_key_hash: self.private_key_hash.clone(),
            reset_token: self.reset_token.clone(),
            created_at: self.created_at,
            display_name: clone_opt(&self.display_name),
        }
    }
}

impl UserProfile {
    /// A profile created now: `created_at` is the current UNIX time in
    /// milliseconds.
    pub fn new(
        user_id: i64,
        username: String,
        display_name: Option<String>,
        public_key: String,
        private_key_hash: String,
        reset_token: String,
    ) -> (p: Self)
        ensures
            p.user_id == user_id,
            p.username@ == username@,
            opt_text(p.display_name) == opt_text(display_name),
            p.public_key@ == public_key@,
            p.private_key_hash@ == private_key_hash@,
            p.reset_token@ == reset_token@,
    {
        let now = unix_now_millis();
        #[verifier::truncate]
        let created_at = now as i64;
        Self::new_at(user_id, username, display_name, public_key, private_key_hash, reset_token, created_at)
    }

    /// A profile created at `created_at` (UNIX milliseconds).
    pub fn new_at(
        user_id: i64,
        username: String,
        display_name: Option<String>,
        public_key: String,
        private_key_hash: String,
        reset_token: String,
        created_at: i64,
    ) -> (p: Self)
        ensures
            p@ == (UserProfileModel {
                user_id,
                username: username@,
                public_key: public_key@,
                private_key_hash: private_key_hash@,
                reset_token: reset_token@,
                created_at,
                display_name: opt_text(display_name),
            }),
    {
        UserProfile {
            user_id,
            username,
            display_name,
            public_key,
            private_key_hash,
            created_at,
            reset_token,
        }
    }

    /// Replaces the reset token with the base64 text of 192 fresh random
    /// bytes, and gives the new token back.
    pub fn randomize_reset_token(&mut self) -> (r: String)
        ensures
            exists|bytes: Seq<u8>| bytes.len() == 192 && #[trigger] base64_text(bytes) == r@,
            final(self)@ == (UserProfileModel { reset_token: r@, ..old(self)@ }),
    {
        let bytes = random_bytes(192);
        let token = base64_encode(bytes.as_slice());
        self.reset_token = token.clone();
        token
    }

    /// The display name if set, else the username.
    pub fn get_display_name(&self) -> (r: String)
        ensures
            r@ == display_name_of(self@),
    {
        match &self.display_name {
            Some(d) => d.clone(),
            None => self.username.clone(),
        }
    }
}


/// The JSON object of a profile: `uuid`, `username`, `public_key`,
/// `private_key_hash`, `created_at`, `reset_token`, then `display_name`
/// when one is set.
pub open spec fn profile_json_is(j: Json, p: UserProfileModel) -> bool {
    &&& j matches Json::Object(ms)
    &&& ms@.len() == if p.display_name is Some { 7int } else { 6int }
    &&& ms@[0].0@ == "uuid"@ && ms@[0].1 == Json::Number(number_of(p.user_id))
    &&& ms@[1].0@ == "username"@ && text_is(ms@[1].1, p.username)
    &&& ms@[2].0@ == "public_key"@ && text_is(ms@[2].1, p.public_key)
    &&& ms@[3].0@ == "private_key_hash"@ && text_is(ms@[3].1, p.private_key_hash)
    &&& ms@[4].0@ == "created_at"@ && ms@[4].1 == Json::Number(number_of(p.created_at))
    &&& ms@[5].0@ == "reset_token"@ && text_is(ms@[5].1, p.reset_token)
    &&& p.display_name matches Some(d) ==> ms@[6].0@ == "display_name"@ && text_is(ms@[6].1, d)
}

/// The profile a JSON object describes: every field but the display name
/// is required, ids and times as integral numbers, the rest as strings.
pub open spec fn profile_from_json(j: Json) -> Option<UserProfileModel> {
    match (
        i64_of(member(j, "uuid"@)),
        text_of(member(j, "username"@)),
        text_of(member(j, "public_key"@)),
        text_of(member(j, "private_key_hash"@)),
        text_of(member(j, "reset_token"@)),
        i64_of(member(j, "created_at"@)),
    ) {
        (Some(user_id), Some(username), Some(public_key), Some(private_key_hash), Some(reset_token), Some(created_at)) => Some(
            UserProfileModel {
                user_id,
                username,
                public_key,
                private_key_hash,
                reset_token,
                created_at,
                display_name: text_of(member(j, "display_name"@)),
            },
        ),
        _ => None,
    }
}

impl UserProfile {
    /// The JSON object of the profile (see `profile_json_is`).
    pub fn to_json(&self) -> (r: Json)
        ensures
            profile_json_is(r, self@),
    {
        let mut ms: Vec<(String, Json)> = Vec::new();
        ms.push(named("uuid", from_i64(self.user_id)));
        ms.push(named("username", text_value(self.username.as_str())));
        ms.push(named("public_key", text_value(self.public_key.as_str())));
        ms.push(named("private_key_hash", text_value(self.private_key_hash.as_str())));
        ms.push(named("created_at", from_i64(self.created_at)));
        ms.push(named("reset_token", text_value(self.reset_token.as_str())));
        if let Some(d) = &self.display_name {
            ms.push(named("display_name", text_value(d.as_str())));
        }
        Json::Object(ms)
    }

    /// The profile a JSON object describes (see `profile_from_json`).
    pub fn from_json(j: &Json) -> (r: Option<UserProfile>)
        ensures
            match r {
                Some(p) => profile_from_json(*j) == Some(p@),
                None => profile_from_json(*j) is None,
            },
    {
        let user_id = match i64_member(j, "uuid") {
            Some(v) => v,
            None => return None,
        };
        let username = match text_member(j, "username") {
            Some(v) => v.clone(),
            None => return None,
        };
        let public_key = match text_member(j, "public_key") {
            Some(v) => v.clone(),
            None => return None,
        };
        let private_key_hash = match text_member(j, "private_key_hash") {
            Some(v) => v.clone(),
            None => return None,
        };
        let reset_token = match text_member(j, "reset_token") {
            Some(v) => v.clone(),
            None => return None,
        };
        let created_at = match i64_member(j, "created_at") {
            Some(v) => v,
            None => return None,
        };
        let display_name = match text_member(j, "display_name") {
            Some(v) => Some(v.clone()),
            None => None,
        };
        Some(UserProfile { user_id, username, public_key, private_key_hash, reset_token, created_at, display_name })
    }
}

/// The JSON object written for a profile reads back as that profile.
pub proof fn lemma_profile_json_round_trip(p: UserProfileModel, j: Json)
    requires
        profile_json_is(j, p),
    ensures
        profile_from_json(j) == Some(p),
{
    reveal_strlit("uuid");
    reveal_strlit("username");
    reveal_strlit("public_key");
    reveal_strlit("private_key_hash");
    reveal_strlit("created_at");
    reveal_strlit("reset_token");
    reveal_strlit("display_name");
    lemma_i64_number(p.user_id);
    lemma_i64_number(p.created_at);
    let ms = match j {
        Json::Object(ms) => ms@,
        _ => Seq::empty(),
    };
    let keys = seq!["uuid"@, "username"@, "public_key"@, "private_key_hash"@, "created_at"@, "reset_token"@, "display_name"@];
    assert forall|a: int, b: int| 0 <= a < 7 && 0 <= b < 7 && a != b implies keys[a] != keys[b] by {
        if keys[a].len() == keys[b].len() {
            assert(keys[a][0] != keys[b][0]);
        }
    }
    assert forall|i: int| 0 <= i < ms.len() implies #[trigger] ms[i].0@ == keys[i] by {}
    lemma_member_at(ms, "uuid"@, 0);
    lemma_member_at(ms, "username"@, 1);
    lemma_member_at(ms, "public_key"@, 2);
    lemma_member_at(ms, "private_key_hash"@, 3);
    lemma_member_at(ms, "created_at"@, 4);
    lemma_member_at(ms, "reset_token"@, 5);
    if p.display_name is Some {
        lemma_member_at(ms, "display_name"@, 6);
    } else {
        lemma_member_absent(ms, "display_name"@);
    }
}

} // verus!
