//! The communities this node hosts, by name.
use crate::text::str_eq;
use vstd::prelude::*;

verus! {

/// Hosted items by name; no name occurs twice.
#[derive(Debug)]
pub struct CommunityRegistry<T> {
    entries: Vec<(String, T)>,
}

/// The map a list of named items with distinct names gives.
pub open spec fn named_map<T>(s: Seq<(String, T)>) -> Map<Seq<char>, T>
    decreases s.len(),
{
    if s.len() == 0 {
        Map::empty()
    } else {
        named_map(s.drop_last()).insert(s.last().0@, s.last().1)
    }
}

/// No name occurs twice.
pub open spec fn names_distinct<T>(s: Seq<(String, T)>) -> bool {
    forall|i: int, j: int| 0 <= i < j < s.len() ==> s[i].0@ != s[j].0@
}

proof fn lemma_named_get<T>(s: Seq<(String, T)>, i: int)
    requires
        names_distinct(s),
        0 <= i < s.len(),
    ensures
        named_map(s).contains_key(s[i].0@),
        named_map(s)[s[i].0@] == s[i].1,
    decreases s.len(),
{
    if i < s.len() - 1 {
        lemma_named_get(s.drop_last(), i);
        assert(s.drop_last()[i] == s[i]);
    }
}

proof fn lemma_named_absent<T>(s: Seq<(String, T)>, k: Seq<char>)
    requires
        forall|i: int| 0 <= i < s.len() ==> s[i].0@ != k,
    ensures
        !named_map(s).contains_key(k),
    decreases s.len(),
{
    if s.len() > 0 {
        assert forall|i: int| 0 <= i < s.drop_last().len() implies s.drop_last()[i].0@ != k by {
            assert(s.drop_last()[i] == s[i]);
        }
        lemma_named_absent(s.drop_last(), k);
    }
}

proof fn lemma_named_remove<T>(s: Seq<(String, T)>, i: int)
    requires
        names_distinct(s),
        0 <= i < s.len(),
    ensures
        named_map(s.remove(i)) == named_map(s).remove(s[i].0@),
        names_distinct(s.remove(i)),
    decreases s.len(),
{
    let t = s.remove(i);
    assert(names_distinct(t)) by {
        assert forall|a: int, b: int| 0 <= a < b < t.len() implies t[a].0@ != t[b].0@ by {
            let a2 = if a < i { a } else { a + 1 };
            let b2 = if b < i { b } else { b + 1 };
            assert(t[a] == s[a2] && t[b] == s[b2]);
        }
    }
    if i == s.len() - 1 {
        assert(t =~= s.drop_last());
        assert forall|j: int| 0 <= j < s.drop_last().len() implies s.drop_last()[j].0@ != s[i].0@ by {
            assert(s.drop_last()[j] == s[j]);
        }
        lemma_named_absent(s.drop_last(), s[i].0@);
        assert(named_map(t) =~= named_map(s).remove(s[i].0@));
    } else {
        let d = s.drop_last();
        assert(names_distinct(d)) by {
            assert forall|a: int, b: int| 0 <= a < b < d.len() implies d[a].0@ != d[b].0@ by {
                assert(d[a] == s[a] && d[b] == s[b]);
            }
        }
        lemma_named_remove(d, i);
        assert(t.drop_last() =~= d.remove(i));
        assert(t.last() == s.last());
        assert(s.last().0@ != s[i].0@);
        assert(named_map(t) =~= named_map(s).remove(s[i].0@));
    }
}

impl<T> View for CommunityRegistry<T> {
    type V = Map<Seq<char>, T>;

    closed spec fn view(&self) -> Map<Seq<char>, T> {
        named_map(self.entries@)
    }
}

impl<T> CommunityRegistry<T> {
    #[verifier::type_invariant]
    spec fn distinct(self) -> bool {
        names_distinct(self.entries@)
    }

    /// No communities.
    pub fn new() -> (r: Self)
        ensures
            r@ == Map::<Seq<char>, T>::empty(),
    {
        CommunityRegistry { entries: Vec::new() }
    }

    fn find(&self, name: &str) -> (r: Option<usize>)
        ensures
            match r {
                Some(i) => i < self.entries@.len() && self.entries@[i as int].0@ == name@,
                None => forall|i: int| 0 <= i < self.entries@.len() ==> self.entries@[i].0@ != name@,
            },
    {
        let mut i: usize = 0;
        while i < self.entries.len()
            invariant
                i <= self.entries@.len(),
                forall|j: int| 0 <= j < i ==> self.entries@[j].0@ != name@,
            decreases self.entries.len() - i,
        {
            if str_eq(self.entries[i].0.as_str(), name) {
                return Some(i);
            }
            i = i + 1;
        }
        None
    }

    /// Removes the community named `name`, if there is one, and hands it
    /// back.
    pub fn remove_community(&mut self, name: &str) -> (r: Option<T>)
        ensures
            final(self)@ == old(self)@.remove(name@),
            r == if old(self)@.contains_key(name@) { Some(old(self)@[name@]) } else { None },
    {
        proof {
            use_type_invariant(&*self);
        }
        match self.find(name) {
            Some(i) => {
                let ghost before = self.entries@;
                proof {
                    lemma_named_get(before, i as int);
                    lemma_named_remove(before, i as int);
                }
                let mut entries: Vec<(String, T)> = Vec::new();
                std::mem::swap(&mut entries, &mut self.entries);
                let (_, item) = entries.remove(i);
                self.entries = entries;
                Some(item)
            },
            None => {
                proof {
                    lemma_named_absent(self.entries@, name@);
                    assert(self@ =~= self@.remove(name@));
                }
                None
            },
        }
    }

    /// Adds a community under its name, replacing one of the same name.
    pub fn add_community(&mut self, name: String, community: T)
        ensures
            final(self)@ == old(self)@.insert(name@, community),
    {
        let _ = self.remove_community(name.as_str());
        proof {
            use_type_invariant(&*self);
        }
        let ghost before = self.entries@;
        let ghost key = name@;
        proof {
            lemma_named_absent_after_remove(before, key);
        }
        let mut entries: Vec<(String, T)> = Vec::new();
        std::mem::swap(&mut entries, &mut self.entries);
        entries.push((name, community));
        assert(entries@.drop_last() == before);
        assert(names_distinct(entries@)) by {
            assert forall|a: int, b: int| 0 <= a < b < entries@.len() implies entries@[a].0@
                != entries@[b].0@ by {
                if b < before.len() {
                    assert(entries@[a] == before[a] && entries@[b] == before[b]);
                } else {
                    assert(entries@[a] == before[a]);
                }
            }
        }
        self.entries = entries;
    }

    /// Forgets every community.
    pub fn clear(&mut self)
        ensures
            final(self)@ == Map::<Seq<char>, T>::empty(),
    {
        self.entries = Vec::new();
    }

    /// The community named `name`, if any.
    pub fn get_community(&self, name: &str) -> (r: Option<&T>)
        ensures
            match r {
                Some(c) => self@.contains_key(name@) && self@[name@] == *c,
                None => !self@.contains_key(name@),
            },
    {
        proof {
            use_type_invariant(self);
        }
        match self.find(name) {
            Some(i) => {
                proof {
                    lemma_named_get(self.entries@, i as int);
                }
                Some(&self.entries[i].1)
            },
            None => {
                proof {
                    lemma_named_absent(self.entries@, name@);
                }
                None
            },
        }
    }

    /// The hosted communities.
    pub fn get_communities(&self) -> (r: Vec<&T>)
        ensures
            r@.len() == self@.dom().len(),
            forall|i: int| 0 <= i < r@.len() ==> holds_value(self@, *#[trigger] r@[i]),
            forall|k: Seq<char>| #[trigger]
                self@.contains_key(k) ==> exists|i: int| 0 <= i < r@.len() && *r@[i] == self@[k],
    {
        proof {
            use_type_invariant(self);
        }
        let mut out: Vec<&T> = Vec::new();
        let mut i: usize = 0;
        while i < self.entries.len()
            invariant
                i <= self.entries@.len(),
                names_distinct(self.entries@),
                out@.len() == i,
                forall|j: int| 0 <= j < i ==> #[trigger] out@[j] == &self.entries@[j].1,
            decreases self.entries.len() - i,
        {
            out.push(&self.entries[i].1);
            i = i + 1;
        }
        proof {
            lemma_named_len(self.entries@);
            assert forall|j: int| 0 <= j < out@.len() implies holds_value(self@, *#[trigger] out@[j]) by {
                lemma_named_get(self.entries@, j);
                assert(self@.contains_key(self.entries@[j].0@));
            }
            assert forall|k: Seq<char>| #[trigger] self@.contains_key(k) implies exists|i: int|
                0 <= i < out@.len() && *out@[i] == self@[k] by {
                if forall|i: int| 0 <= i < self.entries@.len() ==> self.entries@[i].0@ != k {
                    lemma_named_absent(self.entries@, k);
                }
                let i = choose|i: int| 0 <= i < self.entries@.len() && self.entries@[i].0@ == k;
                lemma_named_get(self.entries@, i);
                assert(*out@[i] == self@[k]);
            }
        }
        out
    }
}

/// Whether some name has the value `v`.
pub open spec fn holds_value<T>(m: Map<Seq<char>, T>, v: T) -> bool {
    exists|k: Seq<char>| #[trigger] m.contains_key(k) && m[k] == v
}

/// With distinct names, the map has one key per entry.
proof fn lemma_named_len<T>(s: Seq<(String, T)>)
    requires
        names_distinct(s),
    ensures
        named_map(s).dom().finite(),
        named_map(s).dom().len() == s.len(),
    decreases s.len(),
{
    if s.len() > 0 {
        let d = s.drop_last();
        assert(names_distinct(d)) by {
            assert forall|a: int, b: int| 0 <= a < b < d.len() implies d[a].0@ != d[b].0@ by {
                assert(d[a] == s[a] && d[b] == s[b]);
            }
        }
        lemma_named_len(d);
        assert forall|j: int| 0 <= j < d.len() implies d[j].0@ != s.last().0@ by {
            assert(d[j] == s[j]);
        }
        lemma_named_absent(d, s.last().0@);
    }
}

/// After removing a name, no entry holds it.
proof fn lemma_named_absent_after_remove<T>(s: Seq<(String, T)>, k: Seq<char>)
    requires
        names_distinct(s),
        !named_map(s).contains_key(k),
    ensures
        forall|i: int| 0 <= i < s.len() ==> s[i].0@ != k,
{
    assert forall|i: int| 0 <= i < s.len() implies s[i].0@ != k by {
        lemma_named_get(s, i);
    }
}

/// A community added under a name is found under it, and the others stay
/// as they were; once removed it is gone.
pub proof fn lemma_add_get_remove<T>(m: Map<Seq<char>, T>, name: Seq<char>, c: T, other: Seq<char>)
    ensures
        m.insert(name, c).contains_key(name) && m.insert(name, c)[name] == c,
        other != name ==> m.insert(name, c).contains_key(other) == m.contains_key(other),
        other != name && m.contains_key(other) ==> m.insert(name, c)[other] == m[other],
        !m.insert(name, c).remove(name).contains_key(name),
{
}

} // verus!
