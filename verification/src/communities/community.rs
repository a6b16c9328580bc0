//! A community: its name, owner and members, and where a function call to
//! one of its interactables goes.
use crate::crypto::{
    base64_bytes, base64_decode, base64_encode, base64_text, clamped, random_bytes, x448_public, x448_public_key,
    x448_secret,
};
use crate::data::json_value::{
    dump_json, json_dumped, json_parsed, member, named, parse_json, text_is, text_member, text_of, text_value, Json,
};
use crate::ids::{parse_uuid, uuid_parse, uuid_text, uuid_to_string};
use crate::text::str_eq;
use vstd::prelude::*;

verus! {

/// A community's name, owner and members (by UUID value), and its x448 key
/// pair: the secret key as x448 keeps it and the public key derived from it.
#[derive(Debug)]
pub struct Community {
    name: String,
    owner_id: u128,
    members: Vec<u128>,
    private_key: Vec<u8>,
    public_key: Vec<u8>,
}

/// A community as plain values.
pub struct CommunityModel {
    pub name: Seq<char>,
    pub owner_id: u128,
    pub members: Seq<u128>,
}

impl View for Community {
    type V = CommunityModel;

    closed spec fn view(&self) -> CommunityModel {
        CommunityModel { name: self.name@, owner_id: self.owner_id, members: self.members@ }
    }
}

impl Community {
    /// Well-formed: the secret key has 56 bytes and the public key is the
    /// one x448 derives from it.
    pub closed spec fn keys_paired(self) -> bool {
        self.private_key@.len() == 56 && self.public_key@ == x448_public(self.private_key@) && self.public_key@.len()
            == 56
    }

    /// The community's x448 secret key, as x448 keeps it.
    pub closed spec fn secret_key(self) -> Seq<u8> {
        self.private_key@
    }

    /// The community's x448 public key.
    pub closed spec fn public_key(self) -> Seq<u8> {
        self.public_key@
    }
}

/// The JSON object of a community's configuration: `name`, `owner_id`
/// (hyphenated), then the secret and public keys as base64 text.
pub open spec fn config_is(j: Json, c: CommunityModel, secret: Seq<u8>, public: Seq<u8>) -> bool {
    &&& j matches Json::Object(ms)
    &&& ms@.len() == 4
    &&& ms@[0].0@ == "name"@ && text_is(ms@[0].1, c.name)
    &&& ms@[1].0@ == "owner_id"@ && text_is(ms@[1].1, uuid_text(c.owner_id))
    &&& ms@[2].0@ == "private_key"@ && text_is(ms@[2].1, base64_text(secret))
    &&& ms@[3].0@ == "public_key"@ && text_is(ms@[3].1, base64_text(public))
}

/// A member stays on removal of `member_id` unless it is that member.
pub open spec fn keeps_member(member_id: u128) -> spec_fn(u128) -> bool {
    |m: u128| m != member_id
}

/// Where a call to a top-level interactable goes.
#[derive(Debug, Clone, Copy, PartialEq, Eq, Structural)]
pub enum FunctionRoute {
    /// Run the function of the interactable at this position.
    Run(usize),
    /// Look the target up inside the category at this position.
    Descend(usize),
    /// The call names a category without a path, or a plain interactable
    /// with one: an error answer.
    Mismatch,
    /// No interactable has the name.
    NotFound,
}

/// The first position at or after `i` whose interactable has the name.
pub open spec fn first_named(names: Seq<Seq<char>>, name: Seq<char>, i: int) -> Option<int>
    decreases names.len() - i,
{
    if i < 0 || i >= names.len() {
        None
    } else if names[i] == name {
        Some(i)
    } else {
        first_named(names, name, i + 1)
    }
}

/// Where a call goes, given the names of the top-level interactables and
/// which of them are categories.
pub open spec fn route_of(
    names: Seq<Seq<char>>,
    is_category: Seq<bool>,
    name: Seq<char>,
    path_empty: bool,
) -> FunctionRoute {
    match first_named(names, name, 0) {
        Some(i) => if path_empty {
            if is_category[i] { FunctionRoute::Mismatch } else { FunctionRoute::Run(i as usize) }
        } else if is_category[i] {
            FunctionRoute::Descend(i as usize)
        } else {
            FunctionRoute::Mismatch
        },
        None => FunctionRoute::NotFound,
    }
}

/// Position of the first interactable named `name`, if any.
pub(crate) fn find_named(names: &Vec<String>, name: &str) -> (r: Option<usize>)
    ensures
        match r {
            Some(i) => i < names@.len() && first_named(names@.map_values(|s: String| s@), name@, 0)
                == Some(i as int),
            None => first_named(names@.map_values(|s: String| s@), name@, 0) is None,
        },
{
    let ghost v = names@.map_values(|s: String| s@);
    let mut i: usize = 0;
    while i < names.len()
        invariant
            i <= names@.len(),
            v == names@.map_values(|s: String| s@),
            first_named(v, name@, 0) == first_named(v, name@, i as int),
        decreases names.len() - i,
    {
        assert(v[i as int] == names@[i as int]@);
        if str_eq(names[i].as_str(), name) {
            return Some(i);
        }
        i = i + 1;
    }
    None
}

/// Where a call to the interactable `name` (below the category path `path`
/// when it is not empty) goes, given the names of the top-level
/// interactables and which of them are categories.
pub fn route_function(names: &Vec<String>, is_category: &Vec<bool>, name: &str, path: &str) -> (r:
    FunctionRoute)
    requires
        names@.len() == is_category@.len(),
    ensures
        r == route_of(names@.map_values(|s: String| s@), is_category@, name@, path@.len() == 0),
{
    match find_named(names, name) {
        Some(i) => {
            if path.unicode_len() == 0 {
                if is_category[i] {
                    FunctionRoute::Mismatch
                } else {
                    FunctionRoute::Run(i)
                }
            } else if is_category[i] {
                FunctionRoute::Descend(i)
            } else {
                FunctionRoute::Mismatch
            }
        },
        None => FunctionRoute::NotFound,
    }
}

impl Community {
    /// A community with no members whose x448 secret key is the one x448
    /// makes of the 56 bytes `raw`.
    pub fn with_key(name: String, owner_id: u128, raw: &[u8]) -> (r: Self)
        requires
            raw@.len() == 56,
        ensures
            r@ == (CommunityModel { name: name@, owner_id, members: Seq::empty() }),
            r.keys_paired(),
            r.secret_key() == clamped(raw@),
            r.public_key() == x448_public(clamped(raw@)),
    {
        let private_key = match x448_secret(raw) {
            Some(s) => s,
            None => vstd::slice::slice_to_vec(raw),
        };
        let public_key = match x448_public_key(private_key.as_slice()) {
            Some(p) => p,
            None => Vec::new(),
        };
        Community { name, owner_id, members: Vec::new(), private_key, public_key }
    }

    /// A community with no members and a fresh x448 key pair, its secret
    /// key made of 56 random bytes.
    pub fn new(name: String, owner_id: u128) -> (r: Self)
        ensures
            r@ == (CommunityModel { name: name@, owner_id, members: Seq::empty() }),
            r.keys_paired(),
            exists|raw: Seq<u8>| raw.len() == 56 && #[trigger] clamped(raw) == r.secret_key(),
            r.public_key() == x448_public(r.secret_key()),
    {
        let raw = random_bytes(56);
        Self::with_key(name, owner_id, raw.as_slice())
    }

    /// The x448 secret key.
    pub fn get_private_key(&self) -> (r: Vec<u8>)
        ensures
            r@ == self.secret_key(),
    {
        self.private_key.clone()
    }

    /// The x448 public key.
    pub fn get_public_key(&self) -> (r: &Vec<u8>)
        ensures
            r@ == self.public_key(),
    {
        &self.public_key
    }

    /// The JSON object of the community's configuration (see `config_is`).
    pub fn config_json(&self) -> (r: Json)
        requires
            self.keys_paired(),
        ensures
            config_is(r, self@, self.secret_key(), self.public_key()),
    {
        let owner = uuid_to_string(self.owner_id);
        let private_text = base64_encode(self.private_key.as_slice());
        let public_text = base64_encode(self.public_key.as_slice());
        let mut ms: Vec<(String, Json)> = Vec::new();
        ms.push(named("name", text_value(self.name.as_str())));
        ms.push(named("owner_id", text_value(owner.as_str())));
        ms.push(named("private_key", text_value(private_text.as_str())));
        ms.push(named("public_key", text_value(public_text.as_str())));
        Json::Object(ms)
    }

    /// The text of `config.json`: the configuration object (see
    /// `config_is`) as the json crate writes it.
    pub fn config_text(&self) -> (r: String)
        requires
            self.keys_paired(),
        ensures
            exists|j: Json| config_is(j, self@, self.secret_key(), self.public_key()) && #[trigger] json_dumped(j) == r@,
    {
        let j = self.config_json();
        dump_json(&j)
    }

    /// Adds a member at the end of the list.
    pub fn add_member(&mut self, member_id: u128)
        ensures
            final(self)@ == (CommunityModel { members: old(self)@.members.push(member_id), ..old(self)@ }),
            final(self).secret_key() == old(self).secret_key(),
            final(self).public_key() == old(self).public_key(),
            old(self).keys_paired() ==> final(self).keys_paired(),
    {
        self.members.push(member_id);
    }

    /// Removes every entry of a member.
    pub fn remove_member(&mut self, member_id: u128)
        ensures
            final(self)@ == (CommunityModel {
                members: old(self)@.members.filter(keeps_member(member_id)),
                ..old(self)@
            }),
            final(self).secret_key() == old(self).secret_key(),
            final(self).public_key() == old(self).public_key(),
            old(self).keys_paired() ==> final(self).keys_paired(),
    {
        let ghost pred = keeps_member(member_id);
        let mut kept: Vec<u128> = Vec::new();
        let mut i: usize = 0;
        while i < self.members.len()
            invariant
                i <= self.members@.len(),
                pred == keeps_member(member_id),
                kept@ == self.members@.subrange(0, i as int).filter(pred),
            decreases self.members.len() - i,
        {
            proof {
                let next = self.members@.subrange(0, i + 1);
                assert(next.drop_last() =~= self.members@.subrange(0, i as int));
                reveal(Seq::filter);
            }
            if self.members[i] != member_id {
                kept.push(self.members[i]);
            }
            i = i + 1;
        }
        assert(self.members@.subrange(0, i as int) =~= self.members@);
        self.members = kept;
    }

    /// The community's name.
    pub fn get_name(&self) -> (r: &str)
        ensures
            r@ == self@.name,
    {
        self.name.as_str()
    }

    /// The members, in the order they were added.
    pub fn get_members(&self) -> (r: &Vec<u128>)
        ensures
            r@ == self@.members,
    {
        &self.members
    }
}

/// The UUIDs the names of object members denote, in order; `None` when one
/// denotes none.
pub open spec fn uuid_names(ms: Seq<(String, Json)>) -> Option<Seq<u128>>
    decreases ms.len(),
{
    if ms.len() == 0 {
        Some(Seq::empty())
    } else {
        match (uuid_names(ms.drop_last()), uuid_parse(ms.last().0@)) {
            (Some(p), Some(u)) => Some(p.push(u)),
            _ => None,
        }
    }
}

/// The members `users.json` lists: the UUIDs its keys denote, in order,
/// when it holds an object (`None` when a key denotes none); none when it
/// holds anything else.
pub open spec fn members_from(users: Json) -> Option<Seq<u128>> {
    match users {
        Json::Object(ms) => uuid_names(ms@),
        _ => Some(Seq::empty()),
    }
}

/// The community the texts of its `config.json`, `users.json` and
/// `roles.json` describe, with the x448 secret key x448 keeps: all three
/// must be JSON; the configuration's `name` a text, its `owner_id` a text
/// denoting a UUID, its `private_key` a base64 text of 56 bytes; and the
/// users' keys, if they form an object, must denote UUIDs, which become the
/// members in order.
pub open spec fn community_from(config: Seq<char>, users: Seq<char>, roles: Seq<char>) -> Option<
    (CommunityModel, Seq<u8>),
> {
    match (json_parsed(config), json_parsed(users), json_parsed(roles)) {
        (Some(c), Some(u), Some(_)) => match (
            text_of(member(c, "name"@)),
            text_of(member(c, "owner_id"@)),
            text_of(member(c, "private_key"@)),
            members_from(u),
        ) {
            (Some(name), Some(owner), Some(key), Some(members)) => match (uuid_parse(owner), base64_bytes(key)) {
                (Some(owner_id), Some(bytes)) => if bytes.len() == 56 {
                    Some((CommunityModel { name, owner_id, members }, clamped(bytes)))
                } else {
                    None
                },
                _ => None,
            },
            _ => None,
        },
        _ => None,
    }
}

/// The community stored in the texts of its `config.json`, `users.json`
/// and `roles.json` (see `community_from`); `None` when they describe none.
#[verifier::loop_isolation(false)]
pub fn community_from_files(config: &str, users: &str, roles: &str) -> (r: Option<Community>)
    ensures
        match community_from(config@, users@, roles@) {
            Some((m, key)) => r matches Some(c) && c@ == m && c.secret_key() == key && c.public_key()
                == x448_public(key) && c.keys_paired(),
            None => r is None,
        },
{
    let c = match parse_json(config) {
        Some(j) => j,
        None => return None,
    };
    let u = match parse_json(users) {
        Some(j) => j,
        None => return None,
    };
    match parse_json(roles) {
        Some(_) => {},
        None => return None,
    }
    let name = match text_member(&c, "name") {
        Some(t) => t.clone(),
        None => return None,
    };
    let owner = match text_member(&c, "owner_id") {
        Some(t) => t,
        None => return None,
    };
    let key = match text_member(&c, "private_key") {
        Some(t) => t,
        None => return None,
    };
    let mut members: Vec<u128> = Vec::new();
    match &u {
        Json::Object(ms) => {
            let mut i: usize = 0;
            while i < ms.len()
                invariant
                    i <= ms@.len(),
                    uuid_names(ms@.take(i as int)) == Some(members@),
                decreases ms.len() - i,
            {
                assert(ms@.take(i + 1).drop_last() =~= ms@.take(i as int));
                match parse_uuid(ms[i].0.as_str()) {
                    Some(id) => members.push(id),
                    None => {
                        proof {
                            lemma_uuid_names_none(ms@, i as int + 1);
                        }
                        return None;
                    },
                }
                i = i + 1;
            }
            assert(ms@.take(i as int) =~= ms@);
        },
        _ => {},
    }
    let owner_id = match parse_uuid(owner.as_str()) {
        Some(o) => o,
        None => return None,
    };
    let bytes = match base64_decode(key.as_str()) {
        Some(b) => b,
        None => return None,
    };
    if bytes.len() != 56 {
        return None;
    }
    let mut community = Community::with_key(name, owner_id, bytes.as_slice());
    community.members = members;
    Some(community)
}

/// Once a prefix of the members has a name denoting no UUID, so does the
/// whole list.
proof fn lemma_uuid_names_none(ms: Seq<(String, Json)>, k: int)
    requires
        0 <= k <= ms.len(),
        uuid_names(ms.take(k)) is None,
    ensures
        uuid_names(ms) is None,
    decreases ms.len() - k,
{
    if k < ms.len() {
        assert(ms.take(k + 1).drop_last() =~= ms.take(k));
        lemma_uuid_names_none(ms, k + 1);
    } else {
        assert(ms.take(k) =~= ms);
    }
}

/// Once a member is removed, the list no longer holds it, and every other
/// member stays.
pub proof fn lemma_remove_member(members: Seq<u128>, member_id: u128)
    ensures
        !members.filter(keeps_member(member_id)).contains(member_id),
        forall|i: int| 0 <= i < members.len() && members[i] != member_id ==> members.filter(
            keeps_member(member_id),
        ).contains(#[trigger] members[i]),
{
    if members.filter(keeps_member(member_id)).contains(member_id) {
        let j = choose|j: int|
            0 <= j < members.filter(keeps_member(member_id)).len() && members.filter(
                keeps_member(member_id),
            )[j] == member_id;
        members.lemma_filter_pred(keeps_member(member_id), j);
    }
    assert forall|i: int| 0 <= i < members.len() && members[i] != member_id implies members.filter(
        keeps_member(member_id),
    ).contains(#[trigger] members[i]) by {
        members.lemma_filter_contains(keeps_member(member_id), i);
    }
}

} // verus!
