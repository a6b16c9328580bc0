//! A published version of a legal document.
use crate::terms::terms_getter::{Type, type_slug};
use crate::data::json_value::{
    lemma_member_at, member, named, text_is, text_member, text_of, text_value, u64_member, u64_of, unsigned_number,
    Json,
};
use vstd::prelude::*;

verus! {

/// One version of a legal document: its version name, content hash, kind and
/// the UNIX second from which it applies.
#[derive(Debug)]
pub struct Doc {
    version: String,
    hash: String,
    doc_type: Type,
    timestamp: u64,
}

/// What a `Doc` holds, as plain values.
pub struct DocModel {
    pub version: Seq<char>,
    pub hash: Seq<char>,
    pub doc_type: Type,
    pub timestamp: u64,
}

impl View for Doc {
    type V = DocModel;

    closed spec fn view(&self) -> DocModel {
        DocModel {
            version: self.version@,
            hash: self.hash@,
            doc_type: self.doc_type,
            timestamp: self.timestamp,
        }
    }
}

/// The model of an optional document.
pub open spec fn opt_view(d: Option<Doc>) -> Option<DocModel> {
    match d {
        Some(d) => Some(d@),
        None => None,
    }
}

/// Two documents are the same version when version name and hash agree.
pub open spec fn same_version(a: DocModel, b: DocModel) -> bool {
    a.version == b.version && a.hash == b.hash
}

/// `a` is the same version as the document in `b`, if there is one.
pub open spec fn same_version_some(a: DocModel, b: Option<DocModel>) -> bool {
    match b {
        Some(d) => same_version(a, d),
        None => false,
    }
}

impl Clone for Doc {
    fn clone(&self) -> (d: Self)
        ensures
            d@ == self@,
    {
        Doc {
            version: self.version.clone(),
            hash: self.hash.clone(),
            doc_type: self.doc_type,
            timestamp: self.timestamp,
        }
    }
}

impl Doc {
    pub fn new(version: String, hash: String, doc_type: Type, timestamp: u64) -> (d: Doc)
        ensures
            d@ == (DocModel { version: version@, hash: hash@, doc_type, timestamp }),
    {
        Doc { version, hash, doc_type, timestamp }
    }

    /// Whether `other` holds the same version of the document.
    pub fn equals_some(&self, other: &Option<Self>) -> (r: bool)
        ensures
            r == same_version_some(self@, opt_view(*other)),
    {
        if let Some(other) = other {
            self.equals(other)
        } else {
            false
        }
    }

    /// Whether `other` is the same version of the document.
    pub fn equals(&self, other: &Self) -> (r: bool)
        ensures
            r == same_version(self@, other@),
    {
        self.get_version() == other.get_version() && self.get_hash() == other.get_hash()
    }

    pub fn get_version(&self) -> (r: String)
        ensures
            r@ == self@.version,
    {
        self.version.clone()
    }

    pub fn get_hash(&self) -> (r: String)
        ensures
            r@ == self@.hash,
    {
        self.hash.clone()
    }

    pub fn get_time(&self) -> (r: u64)
        ensures
            r == self@.timestamp,
    {
        self.timestamp
    }

    pub fn get_type(&self) -> (r: Type)
        ensures
            r == self@.doc_type,
    {
        self.doc_type
    }

    /// The directory and file name under which the text of this version is
    /// stored: `docs/<kind>/` and `<version>.md`.
    pub fn content_location(&self) -> (r: (String, String))
        ensures
            r.0@ == "docs/"@ + type_slug(self@.doc_type) + "/"@,
            r.1@ == self@.version + ".md"@,
    {
        let mut dir = String::from_str("docs/");
        dir.append(self.doc_type.to_str());
        dir.append("/");
        let mut file = self.version.clone();
        file.append(".md");
        (dir, file)
    }
}


/// The JSON object of a document version: `version`, `hash` and `unix`.
pub open spec fn doc_json_is(j: Json, d: DocModel) -> bool {
    &&& j matches Json::Object(ms)
    &&& ms@.len() == 3
    &&& ms@[0].0@ == "version"@ && text_is(ms@[0].1, d.version)
    &&& ms@[1].0@ == "hash"@ && text_is(ms@[1].1, d.hash)
    &&& ms@[2].0@ == "unix"@ && ms@[2].1 == Json::Number(unsigned_number(d.timestamp))
}

/// The version a JSON object describes, of kind `t`: `hash` and `version`
/// as strings and `unix` as a number that fits in a `u64`, all required.
pub open spec fn doc_from_json(t: Type, j: Json) -> Option<DocModel> {
    match (text_of(member(j, "hash"@)), text_of(member(j, "version"@)), u64_of(member(j, "unix"@))) {
        (Some(hash), Some(version), Some(timestamp)) => Some(DocModel { version, hash, doc_type: t, timestamp }),
        _ => None,
    }
}

impl Doc {
    /// The JSON object of the version (see `doc_json_is`).
    pub fn to_json(&self) -> (r: Json)
        ensures
            doc_json_is(r, self@),
    {
        let mut ms: Vec<(String, Json)> = Vec::new();
        ms.push(named("version", text_value(self.version.as_str())));
        ms.push(named("hash", text_value(self.hash.as_str())));
        ms.push(named("unix", Json::Number((true, self.timestamp, 0))));
        Json::Object(ms)
    }

    /// The version a JSON object describes (see `doc_from_json`).
    pub fn from_json(doc_type: Type, json: &Json) -> (r: Option<Self>)
        ensures
            opt_view(r) == doc_from_json(doc_type, *json),
    {
        let hash = match text_member(json, "hash") {
            Some(h) => h.clone(),
            None => return None,
        };
        let version = match text_member(json, "version") {
            Some(v) => v.clone(),
            None => return None,
        };
        let timestamp = match u64_member(json, "unix") {
            Some(t) => t,
            None => return None,
        };
        Some(Doc { version, hash, doc_type, timestamp })
    }
}

/// The JSON object written for a version reads back as that version, of
/// the kind it is read as.
pub proof fn lemma_doc_json_round_trip(j: Json, d: DocModel, t: Type)
    requires
        doc_json_is(j, d),
    ensures
        doc_from_json(t, j) == Some(DocModel { doc_type: t, ..d }),
{
    reveal_strlit("version");
    reveal_strlit("hash");
    reveal_strlit("unix");
    let ms = match j {
        Json::Object(ms) => ms@,
        _ => Seq::empty(),
    };
    assert("version"@.len() != "hash"@.len());
    assert("version"@.len() != "unix"@.len());
    assert("hash"@[0] != "unix"@[0]);
    lemma_member_at(ms, "version"@, 0);
    lemma_member_at(ms, "hash"@, 1);
    lemma_member_at(ms, "unix"@, 2);
}

} // verus!
