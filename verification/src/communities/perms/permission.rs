//! A named permission with an id.
use crate::data::json_value::{lemma_member_at, member, named, text_is, text_member, text_of, text_value, Json};
use crate::ids::{parse_uuid, uuid_parse, uuid_text, uuid_to_string};
use vstd::prelude::*;

verus! {

/// A permission: its id and its name.
#[derive(Debug)]
pub struct Permission {
    pub id: u128,
    pub name: String,
}

/// The JSON object of a permission: `id` as text, then `name`.
pub open spec fn permission_json_is(j: Json, id: u128, name: Seq<char>) -> bool {
    &&& j matches Json::Object(ms)
    &&& ms@.len() == 2
    &&& ms@[0].0@ == "id"@ && text_is(ms@[0].1, uuid_text(id))
    &&& ms@[1].0@ == "name"@ && text_is(ms@[1].1, name)
}

/// A JSON object that describes a permission: `id` a string that is a
/// UUID, `name` a string.
pub open spec fn describes_permission(j: Json) -> bool {
    &&& text_of(member(j, "id"@)) matches Some(t) && uuid_parse(t) is Some
    &&& text_of(member(j, "name"@)) is Some
}

impl Permission {
    pub fn new(id: u128, name: String) -> (r: Self)
        ensures
            r.id == id,
            r.name@ == name@,
    {
        Permission { id, name }
    }

    /// The JSON object of the permission (see `permission_json_is`); its id
    /// text parses back to the id.
    pub fn to_json(&self) -> (r: Json)
        ensures
            permission_json_is(r, self.id, self.name@),
            uuid_parse(uuid_text(self.id)) == Some(self.id),
    {
        let mut ms: Vec<(String, Json)> = Vec::new();
        let id = uuid_to_string(self.id);
        ms.push(named("id", text_value(id.as_str())));
        ms.push(named("name", text_value(self.name.as_str())));
        Json::Object(ms)
    }

    /// The permission a JSON object describes.
    pub fn from_json(json: &Json) -> (r: Self)
        requires
            describes_permission(*json),
        ensures
            Some(r.id) == uuid_parse(text_of(member(*json, "id"@))->0),
            Some(r.name@) == text_of(member(*json, "name"@)),
    {
        let id = match text_member(json, "id") {
            Some(t) => match parse_uuid(t.as_str()) {
                Some(u) => u,
                None => 0,
            },
            None => 0,
        };
        let name = match text_member(json, "name") {
            Some(n) => n.clone(),
            None => String::new(),
        };
        Permission { id, name }
    }

    /// The permission a JSON object describes, or `None` when it describes
    /// none (see `describes_permission`).
    pub fn read_json(json: &Json) -> (r: Option<Self>)
        ensures
            r is Some <==> describes_permission(*json),
            r matches Some(p) ==> Some(p.id) == uuid_parse(text_of(member(*json, "id"@))->0)
                && Some(p.name@) == text_of(member(*json, "name"@)),
    {
        let ok = match text_member(json, "id") {
            Some(t) => parse_uuid(t.as_str()).is_some(),
            None => false,
        } && text_member(json, "name").is_some();
        if ok {
            Some(Self::from_json(json))
        } else {
            None
        }
    }
}

/// The JSON object written for a permission reads back as that permission.
pub proof fn lemma_permission_json_round_trip(j: Json, id: u128, name: Seq<char>)
    requires
        permission_json_is(j, id, name),
        uuid_parse(uuid_text(id)) == Some(id),
    ensures
        describes_permission(j),
        uuid_parse(text_of(member(j, "id"@))->0) == Some(id),
        text_of(member(j, "name"@)) == Some(name),
{
    reveal_strlit("id");
    reveal_strlit("name");
    let ms = match j {
        Json::Object(ms) => ms@,
        _ => Seq::empty(),
    };
    assert("id"@.len() != "name"@.len());
    lemma_member_at(ms, "id"@, 0);
    lemma_member_at(ms, "name"@, 1);
}

} // verus!
