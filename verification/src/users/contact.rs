//! A contact in a user's conversation list.
use crate::clock::unix_now_millis;
use crate::data::json_value::{
    from_i64, i64_member, i64_of, lemma_i64_number, lemma_member_absent, lemma_member_at, member, named,
    number_of, text_is, text_member, text_of, text_value, Json,
};
use crate::users::user_profile::opt_text;
use vstd::prelude::*;

verus! {

/// Another user a hosted user talks to.
#[derive(Debug)]
pub struct Contact {
    pub user_id: i64,
    pub user_name: Option<String>,
    pub last_message_at: Option<i64>,
}

impl Clone for Contact {
    fn clone(&self) -> (r: Self)
        ensures
            r.user_id == self.user_id,
            crate::users::user_profile::opt_text(r.user_name)
                == crate::users::user_profile::opt_text(self.user_name),
            r.last_message_at == self.last_message_at,
    {
        Contact {
            user_id: self.user_id,
            user_name: crate::users::user_profile::clone_opt(&self.user_name),
            last_message_at: self.last_message_at,
        }
    }
}

impl Default for Contact {
    /// A contact with id 0, no name and the current time (UNIX
    /// milliseconds) as its last message.
    fn default() -> (r: Self)
        ensures
            r.user_id == 0,
            r.user_name is None,
            r.last_message_at is Some,
    {
        let now = unix_now_millis();
        #[verifier::truncate]
        let at = now as i64;
        Contact { user_id: 0, user_name: None, last_message_at: Some(at) }
    }
}

impl Contact {
    /// A contact known by id alone.
    pub fn new(user_id: i64) -> (r: Self)
        ensures
            r.user_id == user_id,
            r.user_name is None,
            r.last_message_at is None,
    {
        Contact { user_id: user_id, user_name: None, last_message_at: None }
    }

    /// Records the time of the last message.
    pub fn set_last_message_at(&mut self, p0: i64)
        ensures
            final(self).last_message_at == Some(p0),
            final(self).user_id == old(self).user_id,
            final(self).user_name == old(self).user_name,
    {
        self.last_message_at = Some(p0);
    }
}


/// The JSON object of a contact: `user_id`, then `user_name` and
/// `last_message_at` when they are known.
pub open spec fn contact_json_is(j: Json, user_id: i64, user_name: Option<Seq<char>>, last: Option<i64>) -> bool {
    let n: int = if user_name is Some { 2 } else { 1 };
    &&& j matches Json::Object(ms)
    &&& ms@.len() == n + if last is Some { 1int } else { 0int }
    &&& ms@[0].0@ == "user_id"@ && ms@[0].1 == Json::Number(number_of(user_id))
    &&& user_name matches Some(u) ==> ms@[1].0@ == "user_name"@ && text_is(ms@[1].1, u)
    &&& last matches Some(t) ==> ms@[n].0@ == "last_message_at"@ && ms@[n].1 == Json::Number(number_of(t))
}

/// The contact a JSON object describes: the id (0 when missing), the name
/// when it is a string, the time of the last message when it is a number.
pub open spec fn contact_from_json(j: Json) -> (i64, Option<Seq<char>>, Option<i64>) {
    (
        match i64_of(member(j, "user_id"@)) {
            Some(v) => v,
            None => 0,
        },
        text_of(member(j, "user_name"@)),
        i64_of(member(j, "last_message_at"@)),
    )
}

impl Contact {
    /// The JSON object of the contact (see `contact_json_is`).
    pub fn to_json(&self) -> (r: Json)
        ensures
            contact_json_is(r, self.user_id, opt_text(self.user_name), self.last_message_at),
    {
        let mut ms: Vec<(String, Json)> = Vec::new();
        ms.push(named("user_id", from_i64(self.user_id)));
        if let Some(name) = &self.user_name {
            ms.push(named("user_name", text_value(name.as_str())));
        }
        if let Some(ts) = self.last_message_at {
            ms.push(named("last_message_at", from_i64(ts)));
        }
        Json::Object(ms)
    }

    /// The contact a JSON object describes (see `contact_from_json`).
    pub fn from_json(o: &Json) -> (r: Contact)
        ensures
            (r.user_id, opt_text(r.user_name), r.last_message_at) == contact_from_json(*o),
    {
        let user_id = match i64_member(o, "user_id") {
            Some(v) => v,
            None => 0,
        };
        let user_name = match text_member(o, "user_name") {
            Some(s) => Some(s.clone()),
            None => None,
        };
        let last_message_at = i64_member(o, "last_message_at");
        Contact { user_id, user_name, last_message_at }
    }
}

/// The JSON object written for a contact reads back as that contact.
pub proof fn lemma_contact_json_round_trip(j: Json, user_id: i64, user_name: Option<Seq<char>>, last: Option<i64>)
    requires
        contact_json_is(j, user_id, user_name, last),
    ensures
        contact_from_json(j) == (user_id, user_name, last),
{
    reveal_strlit("user_id");
    reveal_strlit("user_name");
    reveal_strlit("last_message_at");
    lemma_i64_number(user_id);
    if let Some(t) = last {
        lemma_i64_number(t);
    }
    let ms = match j {
        Json::Object(ms) => ms@,
        _ => Seq::empty(),
    };
    let n: int = if user_name is Some { 2 } else { 1 };
    assert("user_id"@[5] != "user_name"@[5]);
    lemma_member_at(ms, "user_id"@, 0);
    if user_name is Some {
        lemma_member_at(ms, "user_name"@, 1);
    } else {
        lemma_member_absent(ms, "user_name"@);
    }
    if last is Some {
        lemma_member_at(ms, "last_message_at"@, n);
    } else {
        lemma_member_absent(ms, "last_message_at"@);
    }
}

} // verus!
