//! The list of communities a user has joined, as kept in the user's storage.
use crate::ids::{uuid_text, uuid_to_string};
use crate::users::user_profile::{clone_opt, opt_text};
use vstd::prelude::*;

verus! {

/// One joined community: its title, address and position in the list. Each
/// field is absent when the stored entry does not hold it as text.
#[derive(Debug)]
pub struct CommunityEntry {
    pub title: Option<String>,
    pub address: Option<String>,
    pub position: Option<String>,
}

/// What a `CommunityEntry` holds, as plain values.
pub struct CommunityEntryModel {
    pub title: Option<Seq<char>>,
    pub address: Option<Seq<char>>,
    pub position: Option<Seq<char>>,
}

impl View for CommunityEntry {
    type V = CommunityEntryModel;

    open spec fn view(&self) -> CommunityEntryModel {
        CommunityEntryModel {
            title: opt_text(self.title),
            address: opt_text(self.address),
            position: opt_text(self.position),
        }
    }
}

impl Clone for CommunityEntry {
    fn clone(&self) -> (r: Self)
        ensures
            r@ == self@,
    {
        CommunityEntry {
            title: clone_opt(&self.title),
            address: clone_opt(&self.address),
            position: clone_opt(&self.position),
        }
    }
}

/// The models of a list of entries.
pub open spec fn entry_models(v: Seq<CommunityEntry>) -> Seq<CommunityEntryModel> {
    v.map_values(|e: CommunityEntry| e@)
}

/// An entry is kept on removal of `address` unless it holds that address.
pub open spec fn keeps_entry(address: Seq<char>) -> spec_fn(CommunityEntryModel) -> bool {
    |e: CommunityEntryModel| e.address != Some(address)
}

/// Where a user's files lie: `users/<uuid>/`.
pub open spec fn storage_dir_text(owner: u128) -> Seq<char> {
    "users/"@ + uuid_text(owner) + "/"@
}

/// The communities a user's storage lists.
pub struct UserCommunityUtil;

impl UserCommunityUtil {
    /// The directory of a user's files, `users/<uuid>/`.
    pub fn storage_dir(storage_owner: u128) -> (r: String)
        ensures
            r@ == storage_dir_text(storage_owner),
    {
        let mut out = String::from_str("users/");
        let id = uuid_to_string(storage_owner);
        out.append(id.as_str());
        out.append("/");
        out
    }

    /// The file that lists a user's communities,
    /// `users/<uuid>/communities.json`.
    pub fn communities_file(storage_owner: u128) -> (r: String)
        ensures
            r@ == storage_dir_text(storage_owner) + "communities.json"@,
    {
        let mut out = Self::storage_dir(storage_owner);
        out.append("communities.json");
        out
    }

    /// The list with a new entry for a community appended.
    pub fn add_community(
        communities: Vec<CommunityEntry>,
        address: String,
        title: String,
        position: String,
    ) -> (r: Vec<CommunityEntry>)
        ensures
            entry_models(r@) == entry_models(communities@).push(
                CommunityEntryModel {
                    title: Some(title@),
                    address: Some(address@),
                    position: Some(position@),
                },
            ),
    {
        let mut out = communities;
        let ghost before = out@;
        out.push(
            CommunityEntry { title: Some(title), address: Some(address), position: Some(position) },
        );
        assert(entry_models(out@) =~= entry_models(before).push(out@[out@.len() - 1]@));
        out
    }

    /// The list without the entries that hold `community_address`, in their
    /// order.
    pub fn remove_community(communities: &Vec<CommunityEntry>, community_address: &str) -> (r: Vec<
        CommunityEntry,
    >)
        ensures
            entry_models(r@) == entry_models(communities@).filter(keeps_entry(community_address@)),
    {
        let ghost pred = keeps_entry(community_address@);
        let mut out: Vec<CommunityEntry> = Vec::new();
        let mut i: usize = 0;
        while i < communities.len()
            invariant
                i <= communities.len(),
                pred == keeps_entry(community_address@),
                entry_models(out@) == entry_models(communities@.subrange(0, i as int)).filter(pred),
            decreases communities.len() - i,
        {
            let e = &communities[i];
            let keep = match &e.address {
                Some(a) => !crate::text::str_eq(a.as_str(), community_address),
                None => true,
            };
            let ghost prev = communities@.subrange(0, i as int);
            let ghost next = communities@.subrange(0, i + 1);
            proof {
                assert(entry_models(next).drop_last() =~= entry_models(prev));
                assert(entry_models(next).last() == e@);
                assert(keep == pred(e@));
                reveal(Seq::filter);
            }
            if keep {
                let c = e.clone();
                let ghost before = out@;
                out.push(c);
                assert(entry_models(out@) =~= entry_models(before).push(e@));
            }
            i = i + 1;
        }
        assert(communities@.subrange(0, i as int) =~= communities@);
        out
    }
}

} // verus!
