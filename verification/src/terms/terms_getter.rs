//! The kinds of legal documents and where they are published.
use crate::data::json_value::{get_member, json_parsed, member, parse_json, Json};
use crate::terms::doc::{doc_from_json, Doc, DocModel};
use vstd::prelude::*;

verus! {

/// A kind of legal document.
#[derive(Clone, Copy, Debug, PartialEq, Eq, Structural)]
pub enum Type {
    EULA,
    TOS,
    PP,
}

/// The short name of a document kind, used in paths and links.
pub open spec fn type_slug(t: Type) -> Seq<char> {
    match t {
        Type::EULA => "eula"@,
        Type::TOS => "tos"@,
        Type::PP => "privacy"@,
    }
}

/// The human-readable title of a document kind.
pub open spec fn type_title(t: Type) -> Seq<char> {
    match t {
        Type::EULA => "End User License Agreement"@,
        Type::TOS => "Terms of Service"@,
        Type::PP => "Privacy Policy"@,
    }
}

/// The public page of a document kind.
pub open spec fn link_of(t: Type) -> Seq<char> {
    "https://legal.tensamin.net/"@ + type_slug(t) + "/"@
}

impl Type {
    /// The short name: `eula`, `tos` or `privacy`.
    pub fn to_str(&self) -> (r: &'static str)
        ensures
            r@ == type_slug(*self),
    {
        match self {
            Self::EULA => "eula",
            Self::TOS => "tos",
            Self::PP => "privacy",
        }
    }

    /// The title of the document kind.
    pub fn to_string(&self) -> (r: String)
        ensures
            r@ == type_title(*self),
    {
        match self {
            Self::EULA => String::from_str("End User License Agreement"),
            Self::TOS => String::from_str("Terms of Service"),
            Self::PP => String::from_str("Privacy Policy"),
        }
    }
}

/// The public page of a document kind.
pub fn get_link(terms_type: Type) -> (r: String)
    ensures
        r@ == link_of(terms_type),
{
    let mut s = String::from_str("https://legal.tensamin.net/");
    s.append(terms_type.to_str());
    s.append("/");
    s
}


/// The three versions (EULA, Terms of Service, Privacy Policy) a JSON
/// answer of the document service lists under `eula`, `tos` and `pp`;
/// `None` unless each is an object describing a version.
pub open spec fn docs_from_json(j: Json) -> Option<(DocModel, DocModel, DocModel)> {
    match (member(j, "eula"@), member(j, "tos"@), member(j, "pp"@)) {
        (Json::Object(_), Json::Object(_), Json::Object(_)) => match (
            doc_from_json(Type::EULA, member(j, "eula"@)),
            doc_from_json(Type::TOS, member(j, "tos"@)),
            doc_from_json(Type::PP, member(j, "pp"@)),
        ) {
            (Some(e), Some(t), Some(p)) => Some((e, t, p)),
            _ => None,
        },
        _ => None,
    }
}

/// One of the three versions, read from the member `key` of an answer.
fn doc_member(j: &Json, key: &str, t: Type) -> (r: Option<Doc>)
    ensures
        match member(*j, key@) {
            Json::Object(_) => crate::terms::doc::opt_view(r) == doc_from_json(t, member(*j, key@)),
            _ => r is None,
        },
{
    match get_member(j, key) {
        Some(v) => match v {
            Json::Object(_) => Doc::from_json(t, v),
            _ => None,
        },
        None => None,
    }
}

/// The versions in force or the newest ones, from the text of the document
/// service's answer (see `docs_from_json`); `None` when the text is no JSON.
pub fn docs_of_answer(body: &str) -> (r: Option<(Doc, Doc, Doc)>)
    ensures
        match json_parsed(body@) {
            Some(j) => match r {
                Some(d) => docs_from_json(j) == Some((d.0@, d.1@, d.2@)),
                None => docs_from_json(j) is None,
            },
            None => r is None,
        },
{
    let j = match parse_json(body) {
        Some(j) => j,
        None => return None,
    };
    let e = doc_member(&j, "eula", Type::EULA);
    let t = doc_member(&j, "tos", Type::TOS);
    let p = doc_member(&j, "pp", Type::PP);
    match (e, t, p) {
        (Some(e), Some(t), Some(p)) => Some((e, t, p)),
        _ => None,
    }
}

} // verus!
