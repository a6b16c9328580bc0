//! A language pack and the formatting of its texts.
use crate::text::{lemma_find_none, occurs_at, split_pat, split_str, str_eq, views};
use crate::data::json_value::{json_parsed, parse_json, Json};
use vstd::prelude::*;

verus! {

/// The texts of one language, by key.
#[derive(Debug)]
pub struct LanguagePack {
    language: Vec<(String, String)>,
}

/// The map that a list of (key, text) pairs gives when inserted in order:
/// a later pair for a key replaces an earlier one.
pub open spec fn entries_map(s: Seq<(String, String)>) -> Map<Seq<char>, Seq<char>>
    decreases s.len(),
{
    if s.len() == 0 {
        Map::empty()
    } else {
        entries_map(s.drop_last()).insert(s.last().0@, s.last().1@)
    }
}

/// No key occurs twice among the pairs.
pub open spec fn distinct_keys(s: Seq<(String, String)>) -> bool {
    forall|i: int, j: int| 0 <= i < j < s.len() ==> s[i].0@ != s[j].0@
}

impl View for LanguagePack {
    type V = Map<Seq<char>, Seq<char>>;

    closed spec fn view(&self) -> Map<Seq<char>, Seq<char>> {
        entries_map(self.language@)
    }
}

proof fn lemma_entries_get(s: Seq<(String, String)>, i: int)
    requires
        distinct_keys(s),
        0 <= i < s.len(),
    ensures
        entries_map(s).contains_key(s[i].0@),
        entries_map(s)[s[i].0@] == s[i].1@,
    decreases s.len(),
{
    if i < s.len() - 1 {
        lemma_entries_get(s.drop_last(), i);
        assert(s.drop_last()[i] == s[i]);
    }
}

proof fn lemma_entries_absent(s: Seq<(String, String)>, k: Seq<char>)
    requires
        forall|i: int| 0 <= i < s.len() ==> s[i].0@ != k,
    ensures
        !entries_map(s).contains_key(k),
    decreases s.len(),
{
    if s.len() > 0 {
        assert forall|i: int| 0 <= i < s.drop_last().len() implies s.drop_last()[i].0@ != k by {
            assert(s.drop_last()[i] == s[i]);
        }
        lemma_entries_absent(s.drop_last(), k);
    }
}

proof fn lemma_entries_replace(s: Seq<(String, String)>, i: int, e: (String, String))
    requires
        distinct_keys(s),
        0 <= i < s.len(),
        e.0@ == s[i].0@,
    ensures
        entries_map(s.update(i, e)) == entries_map(s).insert(e.0@, e.1@),
    decreases s.len(),
{
    let t = s.update(i, e);
    if i == s.len() - 1 {
        assert(t.drop_last() == s.drop_last());
        assert forall|j: int| 0 <= j < s.drop_last().len() implies s.drop_last()[j].0@ != e.0@ by {
            assert(s.drop_last()[j] == s[j]);
        }
        lemma_entries_absent(s.drop_last(), e.0@);
        assert(entries_map(t) =~= entries_map(s).insert(e.0@, e.1@));
    } else {
        let d = s.drop_last();
        assert(distinct_keys(d)) by {
            assert forall|a: int, b: int| 0 <= a < b < d.len() implies d[a].0@ != d[b].0@ by {
                assert(d[a] == s[a] && d[b] == s[b]);
            }
        }
        lemma_entries_replace(d, i, e);
        assert(t.drop_last() == d.update(i, e));
        assert(s.last().0@ != s[i].0@);
        assert(entries_map(t) =~= entries_map(s).insert(e.0@, e.1@));
    }
}

impl LanguagePack {
    #[verifier::type_invariant]
    spec fn keys_distinct(self) -> bool {
        distinct_keys(self.language@)
    }

    /// A pack with no texts.
    pub fn empty() -> (r: Self)
        ensures
            r@ == Map::<Seq<char>, Seq<char>>::empty(),
    {
        LanguagePack { language: Vec::new() }
    }

    /// The pack built from the (key, text) pairs read from a language's
    /// files, in order; a later pair for a key wins.
    pub fn new(entries: Vec<(String, String)>) -> (r: Self)
        ensures
            r@ == entries_map(entries@),
    {
        let mut pack = Self::empty();
        pack.load_language(entries);
        pack
    }

    /// Position of `key` among the pairs, if present.
    fn find(&self, key: &str) -> (r: Option<usize>)
        ensures
            match r {
                Some(i) => i < self.language@.len() && self.language@[i as int].0@ == key@,
                None => forall|i: int| 0 <= i < self.language@.len() ==> self.language@[i].0@ != key@,
            },
    {
        let mut i: usize = 0;
        while i < self.language.len()
            invariant
                i <= self.language@.len(),
                forall|j: int| 0 <= j < i ==> self.language@[j].0@ != key@,
            decreases self.language.len() - i,
        {
            if str_eq(self.language[i].0.as_str(), key) {
                return Some(i);
            }
            i = i + 1;
        }
        None
    }

    /// Sets the text of `key`, replacing an earlier one.
    pub fn insert(&mut self, key: String, value: String)
        ensures
            final(self)@ == old(self)@.insert(key@, value@),
    {
        proof {
            use_type_invariant(&*self);
        }
        match self.find(key.as_str()) {
            Some(i) => {
                let ghost before = self.language@;
                let ghost e = (key, value);
                proof {
                    lemma_entries_replace(before, i as int, e);
                }
                let mut pairs: Vec<(String, String)> = Vec::new();
                std::mem::swap(&mut pairs, &mut self.language);
                pairs.set(i, (key, value));
                assert(pairs@ == before.update(i as int, e));
                assert(distinct_keys(pairs@)) by {
                    assert forall|a: int, b: int| 0 <= a < b < pairs@.len() implies pairs@[a].0@
                        != pairs@[b].0@ by {
                        assert(pairs@[a].0@ == before[a].0@ && pairs@[b].0@ == before[b].0@);
                    }
                }
                self.language = pairs;
            },
            None => {
                let ghost before = self.language@;
                let mut pairs: Vec<(String, String)> = Vec::new();
                std::mem::swap(&mut pairs, &mut self.language);
                pairs.push((key, value));
                assert(pairs@.drop_last() == before);
                assert(distinct_keys(pairs@)) by {
                    assert forall|a: int, b: int| 0 <= a < b < pairs@.len() implies pairs@[a].0@
                        != pairs@[b].0@ by {
                        if b < before.len() {
                            assert(pairs@[a] == before[a] && pairs@[b] == before[b]);
                        } else {
                            assert(pairs@[a] == before[a]);
                        }
                    }
                }
                self.language = pairs;
            },
        }
    }

    /// Adds the (key, text) pairs read from a language's files, in order; a
    /// later pair for a key wins.
    pub fn load_language(&mut self, entries: Vec<(String, String)>)
        ensures
            final(self)@ == old(self)@.union_prefer_right(entries_map(entries@)),
    {
        let ghost start = self@;
        let mut i: usize = 0;
        while i < entries.len()
            invariant
                i <= entries@.len(),
                self@ == start.union_prefer_right(entries_map(entries@.subrange(0, i as int))),
            decreases entries.len() - i,
        {
            let k = entries[i].0.clone();
            let v = entries[i].1.clone();
            self.insert(k, v);
            assert(entries@.subrange(0, i + 1).drop_last() == entries@.subrange(0, i as int));
            assert(self@ =~= start.union_prefer_right(entries_map(entries@.subrange(0, i + 1))));
            i = i + 1;
        }
        assert(entries@.subrange(0, i as int) == entries@);
    }

    /// The text of `key`, if the pack has one.
    pub fn get(&self, key: &str) -> (r: Option<&String>)
        ensures
            match r {
                Some(v) => self@.contains_key(key@) && self@[key@] == v@,
                None => !self@.contains_key(key@),
            },
    {
        proof {
            use_type_invariant(self);
        }
        match self.find(key) {
            Some(i) => {
                proof {
                    lemma_entries_get(self.language@, i as int);
                }
                Some(&self.language[i].1)
            },
            None => {
                proof {
                    lemma_entries_absent(self.language@, key@);
                }
                None
            },
        }
    }

    /// The text of a key the pack holds.
    pub fn get_translation(&self, key: &str) -> (r: &String)
        requires
            self@.contains_key(key@),
        ensures
            r@ == self@[key@],
    {
        match self.get(key) {
            Some(v) => v,
            None => {
                assert(false);
                &self.language[0].1
            },
        }
    }
}

impl Clone for LanguagePack {
    fn clone(&self) -> (r: Self)
        ensures
            r@ == self@,
    {
        proof {
            use_type_invariant(self);
        }
        let mut out: Vec<(String, String)> = Vec::new();
        let mut i: usize = 0;
        while i < self.language.len()
            invariant
                i <= self.language@.len(),
                distinct_keys(self.language@),
                out@.len() == i,
                forall|j: int| 0 <= j < i ==> #[trigger] out@[j].0@ == self.language@[j].0@
                    && out@[j].1@ == self.language@[j].1@,
            decreases self.language.len() - i,
        {
            let k = self.language[i].0.clone();
            let v = self.language[i].1.clone();
            out.push((k, v));
            i = i + 1;
        }
        proof {
            lemma_same_entries(out@, self.language@);
        }
        LanguagePack { language: out }
    }
}

/// Pairs with the same keys and texts give the same map.
proof fn lemma_same_entries(a: Seq<(String, String)>, b: Seq<(String, String)>)
    requires
        a.len() == b.len(),
        forall|j: int| 0 <= j < a.len() ==> #[trigger] a[j].0@ == b[j].0@ && a[j].1@ == b[j].1@,
    ensures
        entries_map(a) == entries_map(b),
    decreases a.len(),
{
    if a.len() > 0 {
        assert forall|j: int| 0 <= j < a.drop_last().len() implies #[trigger] a.drop_last()[j].0@
            == b.drop_last()[j].0@ && a.drop_last()[j].1@ == b.drop_last()[j].1@ by {
            assert(a.drop_last()[j] == a[j] && b.drop_last()[j] == b[j]);
        }
        lemma_same_entries(a.drop_last(), b.drop_last());
    }
}

/// The pack in use, as a copy.
pub fn get_language(pack: &LanguagePack) -> (r: LanguagePack)
    ensures
        r@ == pack@,
{
    pack.clone()
}

/// Replaces the pack in use with the texts of another language.
pub fn set_language(pack: &mut LanguagePack, entries: Vec<(String, String)>)
    ensures
        final(pack)@ == entries_map(entries@),
{
    *pack = LanguagePack::new(entries);
}

/// The text a key has in a pack; empty when the pack has none.
pub open spec fn text_of(pack: Map<Seq<char>, Seq<char>>, key: Seq<char>) -> Seq<char> {
    if pack.contains_key(key) {
        pack[key]
    } else {
        Seq::empty()
    }
}

/// The text of `key`, or the empty text when the pack has none.
pub fn from_key(pack: &LanguagePack, key: &str) -> (r: String)
    ensures
        r@ == text_of(pack@, key@),
{
    match pack.get(key) {
        Some(v) => v.clone(),
        None => String::new(),
    }
}

/// The argument texts.
pub open spec fn arg_texts(args: Seq<&str>) -> Seq<Seq<char>> {
    args.map_values(|a: &str| a@)
}

/// The first `n` pieces of a template, each followed by the argument of its
/// position when there is one.
pub open spec fn render(pieces: Seq<Seq<char>>, args: Seq<Seq<char>>, n: int) -> Seq<char>
    decreases n,
{
    if n <= 0 {
        Seq::empty()
    } else {
        render(pieces, args, n - 1) + pieces[n - 1] + (if n - 1 < args.len() {
            args[n - 1]
        } else {
            Seq::empty()
        })
    }
}

/// A template filled in: the pieces between its `{}` marks, the i-th piece
/// followed by the i-th argument while arguments last.
pub open spec fn formatted(template: Seq<char>, args: Seq<Seq<char>>) -> Seq<char> {
    let pieces = split_pat(template, "{}"@);
    render(pieces, args, pieces.len() as int)
}

/// The text of `key` with its `{}` marks filled by `args` in order; extra
/// marks stay empty and extra arguments follow the last piece only if there
/// is a piece for them.
pub fn format(pack: &LanguagePack, key: &str, args: &[&str]) -> (r: String)
    ensures
        r@ == formatted(text_of(pack@, key@), arg_texts(args@)),
{
    let message = from_key(pack, key);
    proof {
        reveal_strlit("{}");
    }
    let parts = split_str(message.as_str(), "{}");
    let ghost pieces = views(parts@);
    let ghost a = arg_texts(args@);
    let mut formatted_text = String::new();
    let mut i: usize = 0;
    while i < parts.len()
        invariant
            i <= parts@.len(),
            pieces == views(parts@),
            pieces.len() == parts@.len(),
            a == arg_texts(args@),
            formatted_text@ == render(pieces, a, i as int),
        decreases parts.len() - i,
    {
        formatted_text.append(parts[i].as_str());
        assert(pieces[i as int] == parts@[i as int]@);
        if i < args.len() {
            formatted_text.append(args[i]);
            assert(a[i as int] == args@[i as int]@);
        }
        assert(formatted_text@ =~= render(pieces, a, i + 1));
        i = i + 1;
    }
    formatted_text
}

/// Once a key's text is set, the pack gives that text for the key, and every
/// other key keeps its text.
pub proof fn lemma_insert_then_lookup(
    pack: Map<Seq<char>, Seq<char>>,
    key: Seq<char>,
    value: Seq<char>,
    other: Seq<char>,
)
    ensures
        text_of(pack.insert(key, value), key) == value,
        other != key ==> text_of(pack.insert(key, value), other) == text_of(pack, other),
{
}

/// Filling a template without arguments gives its pieces joined, that is
/// the template with every `{}` removed.
pub proof fn lemma_render_without_args(pieces: Seq<Seq<char>>, n: int)
    requires
        0 <= n <= pieces.len(),
    ensures
        render(pieces, Seq::empty(), n) == pieces.take(n).fold_left(
            Seq::<char>::empty(),
            |acc: Seq<char>, p: Seq<char>| acc + p,
        ),
    decreases n,
{
    if n > 0 {
        lemma_render_without_args(pieces, n - 1);
        assert(pieces.take(n).drop_last() =~= pieces.take(n - 1));
        assert(render(pieces, Seq::empty(), n) =~= render(pieces, Seq::empty(), n - 1) + pieces[n - 1]);
    }
}

/// A text without `{}` marks, filled in without arguments, is the text
/// itself.
pub proof fn lemma_format_plain(template: Seq<char>)
    requires
        forall|k: int| !occurs_at(template, "{}"@, k),
    ensures
        formatted(template, Seq::empty()) == template,
{
    reveal_strlit("{}");
    lemma_find_none(template, "{}"@, 0);
    assert(split_pat(template, "{}"@) == seq![template]);
    let pieces = seq![template];
    assert(render(pieces, Seq::empty(), 0) == Seq::<char>::empty());
    assert(render(pieces, Seq::empty(), 1) == render(pieces, Seq::empty(), 0) + pieces[0] + Seq::<
        char,
    >::empty());
    assert(render(pieces, Seq::empty(), 1) =~= template);
}


/// The key/text pairs of the members of a language file's object, in
/// order; `None` when a value is not a string.
pub open spec fn string_members(ms: Seq<(String, Json)>) -> Option<Seq<(Seq<char>, Seq<char>)>>
    decreases ms.len(),
{
    if ms.len() == 0 {
        Some(Seq::empty())
    } else {
        match (string_members(ms.drop_last()), ms.last().1) {
            (Some(prev), Json::Text(t)) => Some(prev.push((ms.last().0@, t@))),
            _ => None,
        }
    }
}

/// The models of key/text pairs.
pub open spec fn pair_texts(v: Seq<(String, String)>) -> Seq<(Seq<char>, Seq<char>)> {
    v.map_values(|p: (String, String)| (p.0@, p.1@))
}

/// The entries of a language file (`frontend.json` and the like): the
/// members of its object, each a text; none when it holds no object.
/// `None` when the text is no JSON or a member is not a string.
pub fn entries_from_json(text: &str) -> (r: Option<Vec<(String, String)>>)
    ensures
        match json_parsed(text@) {
            None => r is None,
            Some(Json::Object(ms)) => match string_members(ms@) {
                Some(p) => (r matches Some(v) && pair_texts(v@) == p),
                None => r is None,
            },
            Some(_) => (r matches Some(v) && v@.len() == 0),
        },
{
    let parsed = match parse_json(text) {
        Some(j) => j,
        None => return None,
    };
    let mut out: Vec<(String, String)> = Vec::new();
    match &parsed {
        Json::Object(ms) => {
            let mut i: usize = 0;
            while i < ms.len()
                invariant
                    json_parsed(text@) == Some(parsed),
                    parsed == Json::Object(*ms),
                    i <= ms@.len(),
                    string_members(ms@.take(i as int)) == Some(pair_texts(out@)),
                decreases ms@.len() - i,
            {
                assert(ms@.take(i + 1).drop_last() =~= ms@.take(i as int));
                assert(ms@.take(i + 1).last() == ms@[i as int]);
                match &ms[i].1 {
                    Json::Text(t) => {
                        out.push((ms[i].0.clone(), t.clone()));
                        assert(pair_texts(out@) =~= pair_texts(out@.drop_last()).push((ms@[i as int].0@, t@)));
                    },
                    _ => {
                        assert(!(ms@[i as int].1 is Text));
                        assert(string_members(ms@.take(i + 1)) is None);
                        proof {
                            lemma_string_members_fail(ms@, i as int + 1);
                        }
                        assert(string_members(ms@) is None);
                        return None;
                    },
                }
                i = i + 1;
            }
            assert(ms@.take(i as int) =~= ms@);
        },
        _ => {},
    }
    Some(out)
}

/// Once a member that is not a string was read, the members read no pairs.
proof fn lemma_string_members_fail(ms: Seq<(String, Json)>, k: int)
    requires
        1 <= k <= ms.len(),
        string_members(ms.take(k)) is None,
    ensures
        string_members(ms) is None,
    decreases ms.len() - k,
{
    if k < ms.len() {
        assert(ms.take(k + 1).drop_last() =~= ms.take(k));
        lemma_string_members_fail(ms, k + 1);
    } else {
        assert(ms.take(k) =~= ms);
    }
}

} // verus!
