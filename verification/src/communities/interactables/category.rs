//! Categories: interactables that hold other interactables.
use crate::communities::community::{find_named, first_named};
use crate::text::{lemma_split_char_nonempty, split_char, split_on_char};
use vstd::prelude::*;

verus! {

/// A category: its name and path, and its children, each by name and
/// whether it is a category itself.
pub struct Category {
    pub name: String,
    pub path: String,
    pub child_names: Vec<String>,
    pub child_is_category: Vec<bool>,
}

/// The texts of names.
pub open spec fn names_view(v: Seq<String>) -> Seq<Seq<char>> {
    v.map_values(|s: String| s@)
}

/// The first segment of a path, up to its first `/`.
pub open spec fn first_segment(path: Seq<char>) -> Seq<char> {
    split_char(path, '/')[0]
}

/// The child a lookup finds: with an empty path, the first child named
/// `name`; otherwise the first child named by the path's first segment.
pub open spec fn child_of(c: Category, path: Seq<char>, name: Seq<char>) -> Option<int> {
    if path.len() == 0 {
        first_named(names_view(c.child_names@), name, 0)
    } else {
        first_named(names_view(c.child_names@), first_segment(path), 0)
    }
}

/// A lookup that ends: with a path, its first segment names a child that is
/// no category (a category there would be searched again with the same
/// path, without end, and a missing child is a failure).
pub open spec fn lookup_ends(c: Category, path: Seq<char>) -> bool {
    path.len() > 0 ==> match child_of(c, path, Seq::empty()) {
        Some(i) => !c.child_is_category@[i],
        None => false,
    }
}

impl Category {
    /// An empty category without name or path.
    pub fn new() -> (r: Category)
        ensures
            r.name@.len() == 0,
            r.path@.len() == 0,
            r.child_names@.len() == 0,
            r.child_is_category@.len() == 0,
    {
        Category { name: String::new(), path: String::new(), child_names: Vec::new(), child_is_category: Vec::new() }
    }

    /// The position of the child a lookup finds (see `child_of`).
    pub fn get_child(&self, path: &str, name: &str) -> (r: Option<usize>)
        requires
            self.child_names@.len() == self.child_is_category@.len(),
            lookup_ends(*self, path@),
        ensures
            match r {
                Some(i) => child_of(*self, path@, name@) == Some(i as int),
                None => child_of(*self, path@, name@) is None,
            },
    {
        if path.unicode_len() == 0 {
            find_named(&self.child_names, name)
        } else {
            let parts = split_on_char(path, '/');
            proof {
                lemma_split_char_nonempty(path@, '/');
            }
            assert(parts@[0]@ == first_segment(path@));
            let found = find_named(&self.child_names, parts[0].as_str());
            found
        }
    }

    /// The path of the category followed by its name.
    pub fn get_total_path(&self) -> (r: String)
        ensures
            r@ == self.path@ + "/"@ + self.name@,
    {
        let mut s = self.path.clone();
        s.append("/");
        s.append(self.name.as_str());
        s
    }

    pub fn set_name(&mut self, name: String)
        ensures
            final(self).name@ == name@,
            final(self).path@ == old(self).path@,
    {
        self.name = name;
    }

    pub fn set_path(&mut self, path: String)
        ensures
            final(self).path@ == path@,
            final(self).name@ == old(self).name@,
    {
        self.path = path;
    }

    pub fn get_name(&self) -> (r: &String)
        ensures
            r@ == self.name@,
    {
        &self.name
    }

    /// The names of the children, in order.
    pub fn get_children(&self) -> (r: &Vec<String>)
        ensures
            r@ == self.child_names@,
    {
        &self.child_names
    }

    pub fn get_path(&self) -> (r: &String)
        ensures
            r@ == self.path@,
    {
        &self.path
    }
}

} // verus!
