//! The users hosted on this node and whether their stored list is stale.
use crate::clock::unix_now_millis;
use crate::crypto::{
    base64_encode, base64_text, clamped, hex_encode, hex_lower, random_bytes, sha256, sha256_digest, x448_public,
    x448_public_key, x448_secret,
};
use crate::data::json_value::{dump_json, json_dumped, json_parsed, parse_json, Json};
use crate::text::{str_eq, trim, trimmed};
use crate::users::user_profile::{profile_from_json, profile_json_is, UserProfile, UserProfileModel};
use vstd::prelude::*;

verus! {

/// The hosted users, in the order they were added, and the flag that says
/// the list changed since it was last saved.
pub struct UserManager {
    users: Vec<UserProfile>,
    unique: bool,
}

/// What a `UserManager` holds, as plain values.
pub struct UserManagerModel {
    pub users: Seq<UserProfileModel>,
    pub unique: bool,
}

/// The models of a list of profiles.
pub open spec fn profile_models(v: Seq<UserProfile>) -> Seq<UserProfileModel> {
    v.map_values(|p: UserProfile| p@)
}

impl View for UserManager {
    type V = UserManagerModel;

    closed spec fn view(&self) -> UserManagerModel {
        UserManagerModel { users: profile_models(self.users@), unique: self.unique }
    }
}

/// A profile is kept on removal of `user_id` unless it has that id.
pub open spec fn keeps_user(user_id: i64) -> spec_fn(UserProfileModel) -> bool {
    |u: UserProfileModel| u.user_id != user_id
}

/// The position of the first profile with `user_id` at or after `from`, if
/// any.
pub open spec fn first_with_id(users: Seq<UserProfileModel>, user_id: i64, from: int) -> Option<int>
    decreases users.len() - from,
{
    if from < 0 || from >= users.len() {
        None
    } else if users[from].user_id == user_id {
        Some(from)
    } else {
        first_with_id(users, user_id, from + 1)
    }
}

/// The first profile with `user_id`, if any.
pub open spec fn user_with_id(users: Seq<UserProfileModel>, user_id: i64) -> Option<UserProfileModel> {
    match first_with_id(users, user_id, 0) {
        Some(i) => Some(users[i]),
        None => None,
    }
}

/// The model of an optional profile.
pub open spec fn opt_profile(p: Option<UserProfile>) -> Option<UserProfileModel> {
    match p {
        Some(q) => Some(q@),
        None => None,
    }
}

/// `first_with_id` finds a profile with the id, and none before it.
proof fn lemma_first_with_id(users: Seq<UserProfileModel>, user_id: i64, from: int)
    requires
        0 <= from <= users.len(),
    ensures
        match first_with_id(users, user_id, from) {
            Some(i) => from <= i < users.len() && users[i].user_id == user_id && forall|j: int|
                from <= j < i ==> users[j].user_id != user_id,
            None => forall|j: int| from <= j < users.len() ==> users[j].user_id != user_id,
        },
    decreases users.len() - from,
{
    if from < users.len() {
        lemma_first_with_id(users, user_id, from + 1);
    }
}

/// After every profile with an id is removed, no profile has it.
proof fn lemma_filter_drops_id(users: Seq<UserProfileModel>, user_id: i64)
    ensures
        forall|j: int|
            0 <= j < users.filter(keeps_user(user_id)).len() ==> (#[trigger] users.filter(
                keeps_user(user_id),
            )[j]).user_id != user_id,
{
    assert forall|j: int| 0 <= j < users.filter(keeps_user(user_id)).len() implies (#[trigger] users.filter(
        keeps_user(user_id),
    )[j]).user_id != user_id by {
        users.lemma_filter_pred(keeps_user(user_id), j);
    }
}

impl UserManager {
    /// No users, and nothing to save.
    pub fn new() -> (m: Self)
        ensures
            m@.users == Seq::<UserProfileModel>::empty(),
            !m@.unique,
    {
        UserManager { users: Vec::new(), unique: false }
    }

    /// Adds a profile at the end of the list.
    pub fn add_user(&mut self, profile: UserProfile)
        ensures
            final(self)@.users == old(self)@.users.push(profile@),
            final(self)@.unique == old(self)@.unique,
    {
        let ghost before = self.users@;
        self.users.push(profile);
        assert(profile_models(self.users@) =~= profile_models(before).push(profile@));
    }

    /// Whether the stored list is stale.
    pub fn is_unique(&self) -> (r: bool)
        ensures
            r == self@.unique,
    {
        self.unique
    }

    /// The profiles to write out on a save; the list counts as saved after.
    pub fn take_for_save(&mut self) -> (r: Vec<UserProfile>)
        ensures
            profile_models(r@) == old(self)@.users,
            final(self)@.users == old(self)@.users,
            !final(self)@.unique,
    {
        self.unique = false;
        get_users(self)
    }

    /// Appends the profiles read from storage; says whether the list must be
    /// written back (it was marked stale).
    pub fn load_users(&mut self, loaded: Vec<UserProfile>) -> (save: bool)
        ensures
            final(self)@.users == old(self)@.users + profile_models(loaded@),
            final(self)@.unique == old(self)@.unique,
            save == old(self)@.unique,
    {
        let mut i: usize = 0;
        let ghost start = self@.users;
        while i < loaded.len()
            invariant
                i <= loaded.len(),
                self@.users == start + profile_models(loaded@.subrange(0, i as int)),
                self@.unique == old(self)@.unique,
            decreases loaded.len() - i,
        {
            let p = loaded[i].clone();
            self.add_user(p);
            assert(profile_models(loaded@.subrange(0, i + 1)) =~= profile_models(
                loaded@.subrange(0, i as int),
            ).push(loaded@[i as int]@));
            i = i + 1;
        }
        assert(loaded@.subrange(0, i as int) =~= loaded@);
        self.unique
    }
}

/// The first hosted user with `user_id`, if any.
pub fn get_user(manager: &UserManager, user_id: i64) -> (r: Option<UserProfile>)
    ensures
        opt_profile(r) == user_with_id(manager@.users, user_id),
{
    proof {
        lemma_first_with_id(manager@.users, user_id, 0);
    }
    let mut i: usize = 0;
    while i < manager.users.len()
        invariant
            i <= manager.users.len(),
            forall|j: int| 0 <= j < i ==> manager@.users[j].user_id != user_id,
        decreases manager.users.len() - i,
    {
        assert(manager@.users[i as int] == manager.users@[i as int]@);
        if manager.users[i].user_id == user_id {
            proof {
                lemma_first_with_id(manager@.users, user_id, 0);
            }
            return Some(manager.users[i].clone());
        }
        i = i + 1;
    }
    None
}

/// All hosted users, in order.
pub fn get_users(manager: &UserManager) -> (r: Vec<UserProfile>)
    ensures
        profile_models(r@) == manager@.users,
{
    let mut out: Vec<UserProfile> = Vec::new();
    let mut i: usize = 0;
    while i < manager.users.len()
        invariant
            i <= manager.users.len(),
            profile_models(out@) == profile_models(manager.users@.subrange(0, i as int)),
        decreases manager.users.len() - i,
    {
        let ghost before = out@;
        let c = manager.users[i].clone();
        out.push(c);
        assert(profile_models(out@) =~= profile_models(before).push(c@));
        assert(profile_models(manager.users@.subrange(0, i + 1)) =~= profile_models(
            manager.users@.subrange(0, i as int),
        ).push(manager.users@[i as int]@));
        i = i + 1;
    }
    assert(manager.users@.subrange(0, i as int) =~= manager.users@);
    out
}

/// Removes every hosted user with `user_id`; the list becomes stale.
pub fn remove_user(manager: &mut UserManager, user_id: i64)
    ensures
        final(manager)@.users == old(manager)@.users.filter(keeps_user(user_id)),
        final(manager)@.unique,
{
    let ghost pred = keeps_user(user_id);
    let mut kept: Vec<UserProfile> = Vec::new();
    let mut i: usize = 0;
    while i < manager.users.len()
        invariant
            i <= manager.users.len(),
            pred == keeps_user(user_id),
            profile_models(kept@) == profile_models(manager.users@.subrange(0, i as int)).filter(
                pred,
            ),
        decreases manager.users.len() - i,
    {
        let ghost prev = manager.users@.subrange(0, i as int);
        let ghost next = manager.users@.subrange(0, i + 1);
        proof {
            assert(profile_models(next).drop_last() =~= profile_models(prev));
            assert(profile_models(next).last() == manager.users@[i as int]@);
            reveal(Seq::filter);
        }
        if manager.users[i].user_id != user_id {
            let ghost before = kept@;
            kept.push(manager.users[i].clone());
            assert(profile_models(kept@) =~= profile_models(before).push(manager.users@[i as int]@));
        }
        i = i + 1;
    }
    assert(manager.users@.subrange(0, i as int) =~= manager.users@);
    manager.users = kept;
    manager.unique = true;
}

/// Forgets every hosted user; the list becomes stale.
pub fn clear(manager: &mut UserManager)
    ensures
        final(manager)@.users == Seq::<UserProfileModel>::empty(),
        final(manager)@.unique,
{
    manager.users = Vec::new();
    manager.unique = true;
    assert(profile_models(manager.users@) =~= Seq::<UserProfileModel>::empty());
}

/// Sets whether the stored list is stale.
pub fn set_unique(manager: &mut UserManager, val: bool)
    ensures
        final(manager)@.users == old(manager)@.users,
        final(manager)@.unique == val,
{
    manager.unique = val;
}

/// Once a user is removed, looking the id up finds nothing.
pub proof fn lemma_get_after_remove(before: UserManagerModel, after: UserManagerModel, user_id: i64)
    requires
        after.users == before.users.filter(keeps_user(user_id)),
    ensures
        user_with_id(after.users, user_id) is None,
{
    lemma_filter_drops_id(before.users, user_id);
    lemma_first_with_id(after.users, user_id, 0);
}

/// Removing a user keeps every other user, and keeps them in order.
pub proof fn lemma_remove_keeps_others(before: UserManagerModel, after: UserManagerModel, user_id: i64)
    requires
        after.users == before.users.filter(keeps_user(user_id)),
    ensures
        forall|j: int|
            0 <= j < before.users.len() && before.users[j].user_id != user_id
                ==> after.users.contains(#[trigger] before.users[j]),
        after.users.len() <= before.users.len(),
{
    assert forall|j: int|
        0 <= j < before.users.len() && before.users[j].user_id != user_id implies after.users.contains(
        #[trigger] before.users[j],
    ) by {
        before.users.lemma_filter_contains(keeps_user(user_id), j);
    }
    before.users.lemma_filter_len(keeps_user(user_id));
}

/// An added user is found by its id unless an earlier user has the same id.
pub proof fn lemma_get_after_add(before: UserManagerModel, after: UserManagerModel, profile: UserProfileModel)
    requires
        after.users == before.users.push(profile),
        user_with_id(before.users, profile.user_id) is None,
    ensures
        user_with_id(after.users, profile.user_id) == Some(profile),
{
    lemma_first_with_id(before.users, profile.user_id, 0);
    lemma_first_with_id(after.users, profile.user_id, 0);
    let last = after.users.len() - 1;
    assert(after.users[last] == profile);
    assert forall|j: int| 0 <= j < last implies after.users[j] == before.users[j] by {}
    match first_with_id(after.users, profile.user_id, 0) {
        Some(k) => {
            if k < last {
                assert(after.users[k] == before.users[k]);
            }
        },
        None => {},
    }
}


/// The profiles an array of the `users.json` file describes, in order,
/// leaving out the elements that describe none.
pub open spec fn profiles_from_array(v: Seq<Json>) -> Seq<UserProfileModel>
    decreases v.len(),
{
    if v.len() == 0 {
        Seq::empty()
    } else {
        let prev = profiles_from_array(v.drop_last());
        match profile_from_json(v.last()) {
            Some(p) => prev.push(p),
            None => prev,
        }
    }
}

/// The profiles stored in the text of `users.json`: none for a blank file or
/// one that holds no array, `None` for text that is no JSON.
pub fn users_from_json(content: &str) -> (r: Option<Vec<UserProfile>>)
    ensures
        trimmed(content@).len() == 0 ==> (r matches Some(v) && v@.len() == 0),
        trimmed(content@).len() > 0 ==> match json_parsed(content@) {
            None => r is None,
            Some(Json::Array(a)) => (r matches Some(v) && profile_models(v@) == profiles_from_array(a@)),
            Some(_) => (r matches Some(v) && v@.len() == 0),
        },
{
    if trim(content).unicode_len() == 0 {
        return Some(Vec::new());
    }
    let parsed = match parse_json(content) {
        Some(j) => j,
        None => return None,
    };
    let mut users: Vec<UserProfile> = Vec::new();
    match &parsed {
        Json::Array(a) => {
            let mut i: usize = 0;
            while i < a.len()
                invariant
                    parsed == Json::Array(*a),
                    i <= a@.len(),
                    profile_models(users@) == profiles_from_array(a@.take(i as int)),
                decreases a@.len() - i,
            {
                assert(a@.take(i + 1).drop_last() =~= a@.take(i as int));
                assert(a@.take(i + 1).last() == a@[i as int]);
                if let Some(p) = UserProfile::from_json(&a[i]) {
                    users.push(p);
                }
                assert(profile_models(users@) =~= profiles_from_array(a@.take(i + 1)));
                i = i + 1;
            }
            assert(a@.take(i as int) =~= a@);
        },
        _ => {},
    }
    Some(users)
}

/// The text of `users.json` for a list of profiles: an array of their JSON
/// objects, in order.
pub fn users_to_json(users: &Vec<UserProfile>) -> (r: String)
    ensures
        exists|j: Json|
            {
                &&& j matches Json::Array(a)
                &&& a@.len() == users@.len()
                &&& forall|i: int| 0 <= i < a@.len() ==> profile_json_is(#[trigger] a@[i], users@[i]@)
                &&& r@ == #[trigger] json_dumped(j)
            },
{
    let mut a: Vec<Json> = Vec::new();
    let mut i: usize = 0;
    while i < users.len()
        invariant
            i <= users@.len(),
            a@.len() == i,
            forall|k: int| 0 <= k < i ==> profile_json_is(#[trigger] a@[k], users@[k]@),
        decreases users@.len() - i,
    {
        a.push(users[i].to_json());
        i = i + 1;
    }
    let j = Json::Array(a);
    dump_json(&j)
}

/// The keys and token of a new user: the base64 text of its private key
/// `secret`, the base64 text of the x448 public key of `secret`, the
/// lowercase hex SHA-256 digest of the private key's base64 text (its UTF-8
/// bytes), and the base64 text of the token bytes.
pub open spec fn user_keys(p: UserProfileModel, private_text: Seq<char>, secret: Seq<u8>, token: Seq<u8>) -> bool {
    &&& private_text == base64_text(secret)
    &&& p.public_key == base64_text(x448_public(secret))
    &&& p.private_key_hash == hex_lower(sha256(vstd::utf8::encode_utf8(base64_text(secret))))
    &&& p.reset_token == base64_text(token)
}

/// The profile of a new user with no display name, created at
/// `created_at`, and the base64 text of its private key: the x448 secret
/// x448 makes of the 56 bytes `raw`, with a reset token made of the bytes
/// `token` (see `user_keys`).
pub fn user_profile_from(user_id: i64, username: String, raw: &[u8], token: &[u8], created_at: i64) -> (r: (
    UserProfile,
    String,
))
    requires
        raw@.len() == 56,
        token@.len() <= usize::MAX / 2,
    ensures
        r.0@.user_id == user_id,
        r.0@.username == username@,
        r.0@.display_name is None,
        r.0@.created_at == created_at,
        user_keys(r.0@, r.1@, clamped(raw@), token@),
{
    let secret = match x448_secret(raw) {
        Some(s) => s,
        None => vstd::slice::slice_to_vec(raw),
    };
    let public = match x448_public_key(secret.as_slice()) {
        Some(p) => p,
        None => Vec::new(),
    };
    let private_text = base64_encode(secret.as_slice());
    let digest = sha256_digest(private_text.as_str().as_bytes());
    let private_key_hash = hex_encode(digest.as_slice());
    let reset_token = base64_encode(token);
    let public_key = base64_encode(public.as_slice());
    let profile = UserProfile::new_at(user_id, username, None, public_key, private_key_hash, reset_token, created_at);
    (profile, private_text)
}

/// A new user's profile, created now with no display name, and the base64
/// text of its private key: an x448 secret made of 56 fresh random bytes,
/// with a reset token made of 192 fresh random bytes (see
/// `user_profile_from`).
pub fn new_user_profile(user_id: i64, username: String) -> (r: (UserProfile, String))
    ensures
        r.0@.user_id == user_id,
        r.0@.username == username@,
        r.0@.display_name is None,
        exists|raw: Seq<u8>, token: Seq<u8>|
            raw.len() == 56 && token.len() == 192 && #[trigger] user_keys(r.0@, r.1@, clamped(raw), token),
{
    let raw = random_bytes(56);
    let token = random_bytes(192);
    let now = unix_now_millis();
    #[verifier::truncate]
    let created_at = now as i64;
    let r = user_profile_from(user_id, username, raw.as_slice(), token.as_slice(), created_at);
    assert(user_keys(r.0@, r.1@, clamped(raw@), token@));
    r
}

/// Whether a hosted user with the id has the private key hash.
pub fn key_hash_valid(users: &Vec<UserProfile>, user_id: i64, key_hash: &str) -> (r: bool)
    ensures
        r == exists|i: int|
            0 <= i < users@.len() && #[trigger] users@[i].user_id == user_id && users@[i].private_key_hash@
                == key_hash@,
{
    let mut i: usize = 0;
    while i < users.len()
        invariant
            i <= users@.len(),
            forall|k: int|
                0 <= k < i ==> !(#[trigger] users@[k].user_id == user_id && users@[k].private_key_hash@ == key_hash@),
        decreases users.len() - i,
    {
        if users[i].user_id == user_id && str_eq(users[i].private_key_hash.as_str(), key_hash) {
            return true;
        }
        i = i + 1;
    }
    false
}

} // verus!
