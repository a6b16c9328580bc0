//! The consent record: which versions of the legal documents were accepted,
//! how it is written to and read from the `agreements` file, and the
//! decisions taken when documents change.
use crate::terms::doc::{Doc, DocModel, opt_view, same_version, same_version_some};
use crate::terms::terms_getter::Type;
use crate::text::{decimal, has_prefix, lines, lines_of, parse_u64, parse_u64_spec, push_decimal, str_eq, strip_prefix, views};
use crate::clock::unix_now_secs;
use vstd::prelude::*;

verus! {

/// What the user chose on a consent screen.
#[derive(Debug, Clone, Copy, PartialEq, Eq, Structural)]
pub enum UserChoice {
    Deny,
    AcceptEULA,
    AcceptAll,
}

/// What a change of a document asks of the user.
#[derive(Debug, Clone)]
pub enum UpdateDecision {
    /// Nothing to accept.
    NoChange,
    /// A newer version that takes effect later may be accepted now.
    Future { newest: Doc },
    /// The version in force was never accepted.
    Forced(Doc),
}

/// The model of an `UpdateDecision`.
pub enum UpdateModel {
    NoChange,
    Future { newest: DocModel },
    Forced(DocModel),
}

impl View for UpdateDecision {
    type V = UpdateModel;

    open spec fn view(&self) -> UpdateModel {
        match self {
            UpdateDecision::NoChange => UpdateModel::NoChange,
            UpdateDecision::Future { newest } => UpdateModel::Future { newest: newest@ },
            UpdateDecision::Forced(d) => UpdateModel::Forced(d@),
        }
    }
}

/// The accepted and scheduled versions of the three documents.
#[derive(Debug, Clone)]
pub struct ConsentState {
    pub eula: Option<Doc>,
    pub accepted_eula: bool,
    pub future_eula: Option<Doc>,
    pub tos: Option<Doc>,
    pub accepted_tos: bool,
    pub future_tos: Option<Doc>,
    pub privacy: Option<Doc>,
    pub accepted_pp: bool,
    pub future_privacy: Option<Doc>,
}

/// The model of a `ConsentState`.
pub struct ConsentModel {
    pub eula: Option<DocModel>,
    pub accepted_eula: bool,
    pub future_eula: Option<DocModel>,
    pub tos: Option<DocModel>,
    pub accepted_tos: bool,
    pub future_tos: Option<DocModel>,
    pub privacy: Option<DocModel>,
    pub accepted_pp: bool,
    pub future_privacy: Option<DocModel>,
}

impl View for ConsentState {
    type V = ConsentModel;

    open spec fn view(&self) -> ConsentModel {
        ConsentModel {
            eula: opt_view(self.eula),
            accepted_eula: self.accepted_eula,
            future_eula: opt_view(self.future_eula),
            tos: opt_view(self.tos),
            accepted_tos: self.accepted_tos,
            future_tos: opt_view(self.future_tos),
            privacy: opt_view(self.privacy),
            accepted_pp: self.accepted_pp,
            future_privacy: opt_view(self.future_privacy),
        }
    }
}

/// A scheduled version whose time has passed replaces the current one.
pub open spec fn promoted(cur: Option<DocModel>, fut: Option<DocModel>, now: u64) -> (
    Option<DocModel>,
    Option<DocModel>,
) {
    match fut {
        Some(f) => if f.timestamp < now {
            (Some(f), None)
        } else {
            (cur, fut)
        },
        None => (cur, fut),
    }
}

/// The consent record after the scheduled versions due at `now` took effect,
/// with the optional documents counted as refused while the EULA is not accepted.
pub open spec fn sanitized(m: ConsentModel, now: u64) -> ConsentModel {
    let e = promoted(m.eula, m.future_eula, now);
    let t = promoted(m.tos, m.future_tos, now);
    let p = promoted(m.privacy, m.future_privacy, now);
    ConsentModel {
        eula: e.0,
        accepted_eula: m.accepted_eula,
        future_eula: e.1,
        tos: t.0,
        accepted_tos: m.accepted_eula && m.accepted_tos,
        future_tos: t.1,
        privacy: p.0,
        accepted_pp: m.accepted_eula && m.accepted_pp,
        future_privacy: p.1,
    }
}

pub const CONSENT_HEADER: &'static str = "This file reflects the current consent state used by the application.\nIt may be regenerated or overwritten by the application.\nThis file was last edited by Tensamin at:\nUNIX-SECOND=";

pub const EULA_NOTE: &'static str = "\n\"EULA=true\" indicates that you read, understood and accepted Tensamin's End User Licence agreement. You can find our EULA at https://legal.tensamin.net/eula/\nEULA=";

pub const TOS_NOTE: &'static str = "\n\"Terms-of-Service=true\" indicates that you read, understood and accepted Tensamin's Terms of Service. You can find our Terms of Serivce at https://legal.tensamin.net/tos/\nTerms-of-Service=";

pub const PP_NOTE: &'static str = "\n\"Privacy-Policy=true\" indicates that you read, understood and accepted Tensamin's Privacy Policy. You can find our Privacy Policy at https://legal.tensamin.net/privacy/\nPrivacy-Policy=";

pub const NO_EULA_NOTE: &'static str = "\n\"EULA=true\" indicates that you read, understood and accepted Tensamin's End User Licence Agreement. You can find Tensamin's EULA at https://legal.tensamin.net/eula/\nEULA=false";

pub const EULA_KEY: &'static str = "EULA=";
pub const EULA_VERSION_KEY: &'static str = "EULA-VERSION=";
pub const EULA_HASH_KEY: &'static str = "EULA-HASH=";
pub const TOS_KEY: &'static str = "Terms-of-Service=";
pub const TOS_VERSION_KEY: &'static str = "Terms-of-Service-VERSION=";
pub const TOS_HASH_KEY: &'static str = "Terms-of-Service-HASH=";
pub const PP_KEY: &'static str = "Privacy-Policy=";
pub const PP_VERSION_KEY: &'static str = "Privacy-Policy-VERSION=";
pub const PP_HASH_KEY: &'static str = "Privacy-Policy-HASH=";
pub const UNIX_KEY: &'static str = "UNIX-SECOND=";
pub const FUTURE_EULA_VERSION_KEY: &'static str = "FUTURE-EULA-VERSION=";
pub const FUTURE_EULA_HASH_KEY: &'static str = "FUTURE-EULA-HASH=";
pub const FUTURE_EULA_TIME_KEY: &'static str = "FUTURE-EULA-TIME=";
pub const FUTURE_TOS_VERSION_KEY: &'static str = "FUTURE-Terms-of-Service-VERSION=";
pub const FUTURE_TOS_HASH_KEY: &'static str = "FUTURE-Terms-of-Service-HASH=";
pub const FUTURE_TOS_TIME_KEY: &'static str = "FUTURE-Terms-of-Service-TIME=";
pub const FUTURE_PP_VERSION_KEY: &'static str = "FUTURE-Privacy-Policy-VERSION=";
pub const FUTURE_PP_HASH_KEY: &'static str = "FUTURE-Privacy-Policy-HASH=";
pub const FUTURE_PP_TIME_KEY: &'static str = "FUTURE-Privacy-Policy-TIME=";

pub open spec fn bool_text(b: bool) -> Seq<char> {
    if b {
        "true"@
    } else {
        "false"@
    }
}

/// `key=value` on a line of its own (the line break comes first).
pub open spec fn entry(key: &'static str, value: Seq<char>) -> Seq<char> {
    "\n"@ + key@ + value
}

/// The text written for a scheduled version.
pub open spec fn future_text(d: Option<DocModel>, vkey: &'static str, hkey: &'static str, tkey: &'static str) -> Seq<char> {
    match d {
        Some(d) => entry(vkey, d.version) + entry(hkey, d.hash) + entry(
            tkey,
            decimal(d.timestamp as nat),
        ),
        None => Seq::empty(),
    }
}

/// The block written for an accepted optional document.
pub open spec fn optional_text(
    accepted: bool,
    d: Option<DocModel>,
    note: &'static str,
    vkey: &'static str,
    hkey: &'static str,
) -> Seq<char> {
    if accepted && d is Some {
        note@ + bool_text(accepted) + entry(vkey, d->0.version) + entry(hkey, d->0.hash)
    } else {
        Seq::empty()
    }
}

/// The block written for the current documents.
pub open spec fn current_text(m: ConsentModel) -> Seq<char> {
    match m.eula {
        Some(e) => EULA_NOTE@ + bool_text(m.accepted_eula) + entry(EULA_VERSION_KEY, e.version)
            + entry(EULA_HASH_KEY, e.hash) + optional_text(
            m.accepted_tos,
            m.tos,
            TOS_NOTE,
            TOS_VERSION_KEY,
            TOS_HASH_KEY,
        ) + optional_text(m.accepted_pp, m.privacy, PP_NOTE, PP_VERSION_KEY, PP_HASH_KEY),
        None => NO_EULA_NOTE@,
    }
}

/// The text of the `agreements` file for the record `m`, written at `now`.
pub open spec fn consent_text(m: ConsentModel, now: u64) -> Seq<char> {
    CONSENT_HEADER@ + decimal(now as nat) + current_text(m) + future_text(
        m.future_eula,
        FUTURE_EULA_VERSION_KEY,
        FUTURE_EULA_HASH_KEY,
        FUTURE_EULA_TIME_KEY,
    ) + future_text(m.future_tos, FUTURE_TOS_VERSION_KEY, FUTURE_TOS_HASH_KEY, FUTURE_TOS_TIME_KEY)
        + future_text(m.future_privacy, FUTURE_PP_VERSION_KEY, FUTURE_PP_HASH_KEY, FUTURE_PP_TIME_KEY)
}

/// The raw values read from the lines of an `agreements` file.
pub struct ConsentFields {
    pub eula: bool,
    pub eula_version: Seq<char>,
    pub eula_hash: Seq<char>,
    pub tos: bool,
    pub tos_version: Seq<char>,
    pub tos_hash: Seq<char>,
    pub pp: bool,
    pub pp_version: Seq<char>,
    pub pp_hash: Seq<char>,
    pub unix: Seq<char>,
    pub f_eula_version: Seq<char>,
    pub f_eula_hash: Seq<char>,
    pub f_eula_time: Seq<char>,
    pub f_tos_version: Seq<char>,
    pub f_tos_hash: Seq<char>,
    pub f_tos_time: Seq<char>,
    pub f_pp_version: Seq<char>,
    pub f_pp_hash: Seq<char>,
    pub f_pp_time: Seq<char>,
}

pub open spec fn empty_fields() -> ConsentFields {
    ConsentFields {
        eula: false,
        eula_version: Seq::empty(),
        eula_hash: Seq::empty(),
        tos: false,
        tos_version: Seq::empty(),
        tos_hash: Seq::empty(),
        pp: false,
        pp_version: Seq::empty(),
        pp_hash: Seq::empty(),
        unix: Seq::empty(),
        f_eula_version: Seq::empty(),
        f_eula_hash: Seq::empty(),
        f_eula_time: Seq::empty(),
        f_tos_version: Seq::empty(),
        f_tos_hash: Seq::empty(),
        f_tos_time: Seq::empty(),
        f_pp_version: Seq::empty(),
        f_pp_hash: Seq::empty(),
        f_pp_time: Seq::empty(),
    }
}

/// What follows `key` on a line that starts with it.
pub open spec fn after(line: Seq<char>, key: &'static str) -> Seq<char> {
    line.subrange(key@.len() as int, line.len() as int)
}

/// The fields after reading one more line: the first key the line starts
/// with (in the order below) takes the rest of the line as its value.
pub open spec fn read_line(f: ConsentFields, l: Seq<char>) -> ConsentFields {
    if has_prefix(l, EULA_KEY@) {
        ConsentFields { eula: after(l, EULA_KEY) == "true"@, ..f }
    } else if has_prefix(l, EULA_VERSION_KEY@) {
        ConsentFields { eula_version: after(l, EULA_VERSION_KEY), ..f }
    } else if has_prefix(l, EULA_HASH_KEY@) {
        ConsentFields { eula_hash: after(l, EULA_HASH_KEY), ..f }
    } else if has_prefix(l, TOS_KEY@) {
        ConsentFields { tos: after(l, TOS_KEY) == "true"@, ..f }
    } else if has_prefix(l, TOS_VERSION_KEY@) {
        ConsentFields { tos_version: after(l, TOS_VERSION_KEY), ..f }
    } else if has_prefix(l, TOS_HASH_KEY@) {
        ConsentFields { tos_hash: after(l, TOS_HASH_KEY), ..f }
    } else if has_prefix(l, PP_KEY@) {
        ConsentFields { pp: after(l, PP_KEY) == "true"@, ..f }
    } else if has_prefix(l, PP_VERSION_KEY@) {
        ConsentFields { pp_version: after(l, PP_VERSION_KEY), ..f }
    } else if has_prefix(l, PP_HASH_KEY@) {
        ConsentFields { pp_hash: after(l, PP_HASH_KEY), ..f }
    } else if has_prefix(l, UNIX_KEY@) {
        ConsentFields { unix: after(l, UNIX_KEY), ..f }
    } else if has_prefix(l, FUTURE_EULA_VERSION_KEY@) {
        ConsentFields { f_eula_version: after(l, FUTURE_EULA_VERSION_KEY), ..f }
    } else if has_prefix(l, FUTURE_EULA_HASH_KEY@) {
        ConsentFields { f_eula_hash: after(l, FUTURE_EULA_HASH_KEY), ..f }
    } else if has_prefix(l, FUTURE_EULA_TIME_KEY@) {
        ConsentFields { f_eula_time: after(l, FUTURE_EULA_TIME_KEY), ..f }
    } else if has_prefix(l, FUTURE_TOS_VERSION_KEY@) {
        ConsentFields { f_tos_version: after(l, FUTURE_TOS_VERSION_KEY), ..f }
    } else if has_prefix(l, FUTURE_TOS_HASH_KEY@) {
        ConsentFields { f_tos_hash: after(l, FUTURE_TOS_HASH_KEY), ..f }
    } else if has_prefix(l, FUTURE_TOS_TIME_KEY@) {
        ConsentFields { f_tos_time: after(l, FUTURE_TOS_TIME_KEY), ..f }
    } else if has_prefix(l, FUTURE_PP_VERSION_KEY@) {
        ConsentFields { f_pp_version: after(l, FUTURE_PP_VERSION_KEY), ..f }
    } else if has_prefix(l, FUTURE_PP_HASH_KEY@) {
        ConsentFields { f_pp_hash: after(l, FUTURE_PP_HASH_KEY), ..f }
    } else if has_prefix(l, FUTURE_PP_TIME_KEY@) {
        ConsentFields { f_pp_time: after(l, FUTURE_PP_TIME_KEY), ..f }
    } else {
        f
    }
}

/// The fields after reading all of `ls` in order.
pub open spec fn read_lines(ls: Seq<Seq<char>>) -> ConsentFields
    decreases ls.len(),
{
    if ls.len() == 0 {
        empty_fields()
    } else {
        read_line(read_lines(ls.drop_last()), ls.last())
    }
}

/// A number field, 0 when it does not parse.
pub open spec fn number_or_zero(s: Seq<char>) -> u64 {
    match parse_u64_spec(s) {
        Some(v) => v,
        None => 0,
    }
}

/// A scheduled version, present when its version field is not empty.
pub open spec fn future_doc(version: Seq<char>, hash: Seq<char>, t: Type, time: Seq<char>) -> Option<
    DocModel,
> {
    if version.len() > 0 {
        Some(DocModel { version, hash, doc_type: t, timestamp: number_or_zero(time) })
    } else {
        None
    }
}

/// The record the fields describe, before sanitizing.
pub open spec fn record_of(f: ConsentFields) -> ConsentModel {
    let unix = number_or_zero(f.unix);
    ConsentModel {
        accepted_eula: f.eula,
        eula: Some(DocModel { version: f.eula_version, hash: f.eula_hash, doc_type: Type::EULA, timestamp: unix }),
        accepted_pp: f.pp,
        privacy: Some(DocModel { version: f.pp_version, hash: f.pp_hash, doc_type: Type::PP, timestamp: unix }),
        accepted_tos: f.tos,
        tos: Some(DocModel { version: f.tos_version, hash: f.tos_hash, doc_type: Type::TOS, timestamp: unix }),
        future_eula: future_doc(f.f_eula_version, f.f_eula_hash, Type::EULA, f.f_eula_time),
        future_tos: future_doc(f.f_tos_version, f.f_tos_hash, Type::TOS, f.f_tos_time),
        future_privacy: future_doc(f.f_pp_version, f.f_pp_hash, Type::PP, f.f_pp_time),
    }
}

/// The record read from the text `s` of an `agreements` file at `now`.
pub open spec fn consent_from_text(s: Seq<char>, now: u64) -> ConsentModel {
    sanitized(record_of(read_lines(lines_of(s))), now)
}


fn promote(cur: Option<Doc>, fut: Option<Doc>, now: u64) -> (r: (Option<Doc>, Option<Doc>))
    ensures
        (opt_view(r.0), opt_view(r.1)) == promoted(opt_view(cur), opt_view(fut), now),
{
    match fut {
        Some(f) => {
            if f.get_time() < now {
                (Some(f), None)
            } else {
                (cur, Some(f))
            }
        },
        None => (cur, None),
    }
}

fn push_bool(s: &mut String, b: bool)
    ensures
        final(s)@ == old(s)@ + bool_text(b),
{
    if b {
        s.append("true");
    } else {
        s.append("false");
    }
}

fn push_entry(s: &mut String, key: &'static str, value: &str)
    ensures
        final(s)@ == old(s)@ + entry(key, value@),
{
    s.append("\n");
    s.append(key);
    s.append(value);
}

fn push_future(s: &mut String, d: &Option<Doc>, vkey: &'static str, hkey: &'static str, tkey: &'static str)
    ensures
        final(s)@ == old(s)@ + future_text(opt_view(*d), vkey, hkey, tkey),
{
    if let Some(d) = d {
        push_entry(s, vkey, d.get_version().as_str());
        push_entry(s, hkey, d.get_hash().as_str());
        s.append("\n");
        s.append(tkey);
        push_decimal(s, d.get_time());
        assert(s@ == old(s)@ + entry(vkey, d@.version) + entry(hkey, d@.hash) + entry(
            tkey,
            decimal(d@.timestamp as nat),
        ));
    }
}

fn push_optional(
    out: &mut String,
    accepted: bool,
    d: &Option<Doc>,
    note: &'static str,
    vkey: &'static str,
    hkey: &'static str,
)
    ensures
        final(out)@ == old(out)@ + optional_text(accepted, opt_view(*d), note, vkey, hkey),
{
    if accepted {
        if let Some(d) = d {
            out.append(note);
            push_bool(out, accepted);
            push_entry(out, vkey, d.get_version().as_str());
            push_entry(out, hkey, d.get_hash().as_str());
        }
    }
}

/// The raw values of the lines read so far.
struct FieldValues {
    eula: bool,
    eula_version: String,
    eula_hash: String,
    tos: bool,
    tos_version: String,
    tos_hash: String,
    pp: bool,
    pp_version: String,
    pp_hash: String,
    unix: String,
    f_eula_version: String,
    f_eula_hash: String,
    f_eula_time: String,
    f_tos_version: String,
    f_tos_hash: String,
    f_tos_time: String,
    f_pp_version: String,
    f_pp_hash: String,
    f_pp_time: String,
}

impl View for FieldValues {
    type V = ConsentFields;

    closed spec fn view(&self) -> ConsentFields {
        ConsentFields {
            eula: self.eula,
            eula_version: self.eula_version@,
            eula_hash: self.eula_hash@,
            tos: self.tos,
            tos_version: self.tos_version@,
            tos_hash: self.tos_hash@,
            pp: self.pp,
            pp_version: self.pp_version@,
            pp_hash: self.pp_hash@,
            unix: self.unix@,
            f_eula_version: self.f_eula_version@,
            f_eula_hash: self.f_eula_hash@,
            f_eula_time: self.f_eula_time@,
            f_tos_version: self.f_tos_version@,
            f_tos_hash: self.f_tos_hash@,
            f_tos_time: self.f_tos_time@,
            f_pp_version: self.f_pp_version@,
            f_pp_hash: self.f_pp_hash@,
            f_pp_time: self.f_pp_time@,
        }
    }
}

impl FieldValues {
    fn empty() -> (r: FieldValues)
        ensures
            r@ == empty_fields(),
    {
        FieldValues {
            eula: false,
            eula_version: String::new(),
            eula_hash: String::new(),
            tos: false,
            tos_version: String::new(),
            tos_hash: String::new(),
            pp: false,
            pp_version: String::new(),
            pp_hash: String::new(),
            unix: String::new(),
            f_eula_version: String::new(),
            f_eula_hash: String::new(),
            f_eula_time: String::new(),
            f_tos_version: String::new(),
            f_tos_hash: String::new(),
            f_tos_time: String::new(),
            f_pp_version: String::new(),
            f_pp_hash: String::new(),
            f_pp_time: String::new(),
        }
    }

    fn read(&mut self, l: &str)
        ensures
            final(self)@ == read_line(old(self)@, l@),
    {
        if let Some(v) = strip_prefix(l, EULA_KEY) {
            self.eula = str_eq(v, "true");
        } else if let Some(v) = strip_prefix(l, EULA_VERSION_KEY) {
            self.eula_version = String::from_str(v);
        } else if let Some(v) = strip_prefix(l, EULA_HASH_KEY) {
            self.eula_hash = String::from_str(v);
        } else if let Some(v) = strip_prefix(l, TOS_KEY) {
            self.tos = str_eq(v, "true");
        } else if let Some(v) = strip_prefix(l, TOS_VERSION_KEY) {
            self.tos_version = String::from_str(v);
        } else if let Some(v) = strip_prefix(l, TOS_HASH_KEY) {
            self.tos_hash = String::from_str(v);
        } else if let Some(v) = strip_prefix(l, PP_KEY) {
            self.pp = str_eq(v, "true");
        } else if let Some(v) = strip_prefix(l, PP_VERSION_KEY) {
            self.pp_version = String::from_str(v);
        } else if let Some(v) = strip_prefix(l, PP_HASH_KEY) {
            self.pp_hash = String::from_str(v);
        } else if let Some(v) = strip_prefix(l, UNIX_KEY) {
            self.unix = String::from_str(v);
        } else if let Some(v) = strip_prefix(l, FUTURE_EULA_VERSION_KEY) {
            self.f_eula_version = String::from_str(v);
        } else if let Some(v) = strip_prefix(l, FUTURE_EULA_HASH_KEY) {
            self.f_eula_hash = String::from_str(v);
        } else if let Some(v) = strip_prefix(l, FUTURE_EULA_TIME_KEY) {
            self.f_eula_time = String::from_str(v);
        } else if let Some(v) = strip_prefix(l, FUTURE_TOS_VERSION_KEY) {
            self.f_tos_version = String::from_str(v);
        } else if let Some(v) = strip_prefix(l, FUTURE_TOS_HASH_KEY) {
            self.f_tos_hash = String::from_str(v);
        } else if let Some(v) = strip_prefix(l, FUTURE_TOS_TIME_KEY) {
            self.f_tos_time = String::from_str(v);
        } else if let Some(v) = strip_prefix(l, FUTURE_PP_VERSION_KEY) {
            self.f_pp_version = String::from_str(v);
        } else if let Some(v) = strip_prefix(l, FUTURE_PP_HASH_KEY) {
            self.f_pp_hash = String::from_str(v);
        } else if let Some(v) = strip_prefix(l, FUTURE_PP_TIME_KEY) {
            self.f_pp_time = String::from_str(v);
        }
    }
}

fn number_field(s: &String) -> (r: u64)
    ensures
        r == number_or_zero(s@),
{
    match parse_u64(s.as_str()) {
        Some(v) => v,
        None => 0,
    }
}

fn future_field(version: String, hash: String, t: Type, time: &String) -> (r: Option<Doc>)
    ensures
        opt_view(r) == future_doc(version@, hash@, t, time@),
{
    if version.as_str().unicode_len() > 0 {
        Some(Doc::new(version, hash, t, number_field(time)))
    } else {
        None
    }
}

impl ConsentState {
    /// Applies the scheduled versions due at `current_secs` and clears the
    /// optional consents while the EULA is not accepted.
    pub fn sanitize(self, current_secs: u64) -> (r: Self)
        ensures
            r@ == sanitized(self@, current_secs),
    {
        let (eula, future_eula) = promote(self.eula, self.future_eula, current_secs);
        let (tos, future_tos) = promote(self.tos, self.future_tos, current_secs);
        let (privacy, future_privacy) = promote(self.privacy, self.future_privacy, current_secs);
        ConsentState {
            eula,
            accepted_eula: self.accepted_eula,
            future_eula,
            tos,
            accepted_tos: self.accepted_eula && self.accepted_tos,
            future_tos,
            privacy,
            accepted_pp: self.accepted_eula && self.accepted_pp,
            future_privacy,
        }
    }

    /// The text of the `agreements` file for this record, stamped with the
    /// current time.
    pub fn to_string(&self) -> (r: String)
        ensures
            exists|t: u64| r@ == consent_text(self@, t),
    {
        let now = unix_now_secs();
        self.to_string_at(now)
    }

    /// The text of the `agreements` file for this record, stamped with `current_secs`.
    pub fn to_string_at(&self, current_secs: u64) -> (r: String)
        ensures
            r@ == consent_text(self@, current_secs),
    {
        let mut out = String::from_str(CONSENT_HEADER);
        push_decimal(&mut out, current_secs);
        self.push_current(&mut out);
        push_future(&mut out, &self.future_eula, FUTURE_EULA_VERSION_KEY, FUTURE_EULA_HASH_KEY, FUTURE_EULA_TIME_KEY);
        push_future(&mut out, &self.future_tos, FUTURE_TOS_VERSION_KEY, FUTURE_TOS_HASH_KEY, FUTURE_TOS_TIME_KEY);
        push_future(&mut out, &self.future_privacy, FUTURE_PP_VERSION_KEY, FUTURE_PP_HASH_KEY, FUTURE_PP_TIME_KEY);
        out
    }

    fn push_current(&self, out: &mut String)
        ensures
            final(out)@ == old(out)@ + current_text(self@),
    {
        if let Some(eula) = &self.eula {
            out.append(EULA_NOTE);
            push_bool(out, self.accepted_eula);
            push_entry(out, EULA_VERSION_KEY, eula.get_version().as_str());
            push_entry(out, EULA_HASH_KEY, eula.get_hash().as_str());
            push_optional(out, self.accepted_tos, &self.tos, TOS_NOTE, TOS_VERSION_KEY, TOS_HASH_KEY);
            push_optional(out, self.accepted_pp, &self.privacy, PP_NOTE, PP_VERSION_KEY, PP_HASH_KEY);
        } else {
            out.append(NO_EULA_NOTE);
        }
    }

    /// Reads the record from the text of an `agreements` file: the last line
    /// for each key wins, missing numbers count as 0, and the result is
    /// sanitized at `current_secs`.
    pub fn from_str(s: &str, current_secs: u64) -> (r: Self)
        ensures
            r@ == consent_from_text(s@, current_secs),
    {
        let ls = lines(s);
        let ghost lv = lines_of(s@);
        let mut f = FieldValues::empty();
        let mut i: usize = 0;
        while i < ls.len()
            invariant
                views(ls@) == lv,
                i <= ls@.len(),
                f@ == read_lines(lv.subrange(0, i as int)),
            decreases ls@.len() - i,
        {
            assert(lv.subrange(0, i + 1).drop_last() == lv.subrange(0, i as int));
            assert(ls@[i as int]@ == lv[i as int]);
            f.read(ls[i].as_str());
            i = i + 1;
        }
        assert(lv.subrange(0, lv.len() as int) == lv);
        let unix = number_field(&f.unix);
        let future_eula = future_field(f.f_eula_version, f.f_eula_hash, Type::EULA, &f.f_eula_time);
        let future_tos = future_field(f.f_tos_version, f.f_tos_hash, Type::TOS, &f.f_tos_time);
        let future_privacy = future_field(f.f_pp_version, f.f_pp_hash, Type::PP, &f.f_pp_time);
        let state = ConsentState {
            accepted_eula: f.eula,
            eula: Some(Doc::new(f.eula_version, f.eula_hash, Type::EULA, unix)),
            accepted_pp: f.pp,
            privacy: Some(Doc::new(f.pp_version, f.pp_hash, Type::PP, unix)),
            accepted_tos: f.tos,
            tos: Some(Doc::new(f.tos_version, f.tos_hash, Type::TOS, unix)),
            future_eula,
            future_tos,
            future_privacy,
        };
        state.sanitize(current_secs)
    }
}


/// The decision for the EULA: nothing to do when the version accepted is in
/// force and either no newer one exists or it was already accepted for later;
/// a newer version may be accepted for later; a version in force that was
/// never accepted must be accepted now, unless the newest one was.
pub open spec fn eula_decision(acc: ConsentModel, cur: DocModel, new: DocModel) -> UpdateModel {
    if same_version_some(cur, acc.eula) {
        if same_version(cur, new) {
            UpdateModel::NoChange
        } else if same_version_some(new, acc.future_eula) {
            UpdateModel::NoChange
        } else {
            UpdateModel::Future { newest: new }
        }
    } else if same_version_some(new, acc.eula) {
        UpdateModel::NoChange
    } else {
        UpdateModel::Forced(cur)
    }
}

/// The decision for an optional document: nothing to do when it was not
/// accepted or the newest version was; otherwise as for the EULA.
pub open spec fn optional_decision(
    accepted: bool,
    doc: Option<DocModel>,
    future: Option<DocModel>,
    cur: DocModel,
    new: DocModel,
) -> UpdateModel {
    if !accepted || same_version_some(new, doc) {
        UpdateModel::NoChange
    } else if accepted && same_version_some(cur, doc) {
        if same_version(cur, new) {
            UpdateModel::NoChange
        } else if same_version_some(new, future) {
            UpdateModel::NoChange
        } else {
            UpdateModel::Future { newest: new }
        }
    } else {
        UpdateModel::Forced(cur)
    }
}

/// The decisions for the three documents, or `None` when none asks anything.
pub open spec fn updates(
    acc: ConsentModel,
    cur: (DocModel, DocModel, DocModel),
    new: (DocModel, DocModel, DocModel),
) -> Option<(UpdateModel, UpdateModel, UpdateModel)> {
    let e = eula_decision(acc, cur.0, new.0);
    let t = optional_decision(acc.accepted_tos, acc.tos, acc.future_tos, cur.1, new.1);
    let p = optional_decision(acc.accepted_pp, acc.privacy, acc.future_privacy, cur.2, new.2);
    if e is NoChange && t is NoChange && p is NoChange {
        None
    } else {
        Some((e, t, p))
    }
}

/// A version already accepted for later is never offered again: no decision
/// offers, as a future version, the one already scheduled for that document.
/// When the version in force is the accepted one and the newest is the one
/// scheduled, the EULA needs nothing; and if, besides, the newest version of
/// each accepted optional document is the one accepted, there is nothing to
/// ask at all.
pub proof fn lemma_scheduled_not_offered_again(
    acc: ConsentModel,
    cur: (DocModel, DocModel, DocModel),
    new: (DocModel, DocModel, DocModel),
)
    ensures
        updates(acc, cur, new) matches Some(d) ==> {
            &&& !(d.0 matches UpdateModel::Future { newest } && same_version_some(newest, acc.future_eula))
            &&& !(d.1 matches UpdateModel::Future { newest } && same_version_some(newest, acc.future_tos))
            &&& !(d.2 matches UpdateModel::Future { newest } && same_version_some(newest, acc.future_privacy))
        },
        same_version_some(cur.0, acc.eula) && same_version_some(new.0, acc.future_eula) ==> (updates(
            acc,
            cur,
            new,
        ) matches Some(d) ==> d.0 is NoChange),
        same_version_some(cur.0, acc.eula) && same_version_some(new.0, acc.future_eula)
            && (acc.accepted_tos ==> same_version_some(new.1, acc.tos))
            && (acc.accepted_pp ==> same_version_some(new.2, acc.privacy))
            ==> updates(acc, cur, new) is None,
{
}

pub open spec fn triple_view(d: (Doc, Doc, Doc)) -> (DocModel, DocModel, DocModel) {
    (d.0@, d.1@, d.2@)
}

pub open spec fn decisions_view(d: (UpdateDecision, UpdateDecision, UpdateDecision)) -> (
    UpdateModel,
    UpdateModel,
    UpdateModel,
) {
    (d.0@, d.1@, d.2@)
}

fn decide_eula(acc: &ConsentState, cur: Doc, new: Doc) -> (r: UpdateDecision)
    ensures
        r@ == eula_decision(acc@, cur@, new@),
{
    if cur.equals_some(&acc.eula) {
        if cur.equals(&new) {
            UpdateDecision::NoChange
        } else if new.equals_some(&acc.future_eula) {
            UpdateDecision::NoChange
        } else {
            UpdateDecision::Future { newest: new }
        }
    } else if new.equals_some(&acc.eula) {
        UpdateDecision::NoChange
    } else {
        UpdateDecision::Forced(cur)
    }
}

fn decide_optional(accepted: bool, doc: &Option<Doc>, future: &Option<Doc>, cur: Doc, new: Doc) -> (r:
    UpdateDecision)
    ensures
        r@ == optional_decision(accepted, opt_view(*doc), opt_view(*future), cur@, new@),
{
    if !accepted || new.equals_some(doc) {
        UpdateDecision::NoChange
    } else if accepted && cur.equals_some(doc) {
        if cur.equals(&new) {
            UpdateDecision::NoChange
        } else if new.equals_some(future) {
            UpdateDecision::NoChange
        } else {
            UpdateDecision::Future { newest: new }
        }
    } else {
        UpdateDecision::Forced(cur)
    }
}

fn is_no_change(d: &UpdateDecision) -> (r: bool)
    ensures
        r == (d@ is NoChange),
{
    match d {
        UpdateDecision::NoChange => true,
        _ => false,
    }
}

fn is_forced(d: &UpdateDecision) -> (r: bool)
    ensures
        r == (d@ is Forced),
{
    match d {
        UpdateDecision::Forced(_) => true,
        _ => false,
    }
}

/// Whether any of the decisions asks for a version in force to be accepted now.
pub open spec fn any_forced(d: (UpdateModel, UpdateModel, UpdateModel)) -> bool {
    d.0 is Forced || d.1 is Forced || d.2 is Forced
}

/// The record after the first consent screen: refusing ends consent; the
/// EULA (and with `AcceptAll` the optional documents) are accepted in the
/// versions in force, when those could be fetched.
pub open spec fn after_first_choice(
    m: ConsentModel,
    choice: UserChoice,
    current: Option<(DocModel, DocModel, DocModel)>,
) -> Option<ConsentModel> {
    match choice {
        UserChoice::Deny => None,
        _ => match current {
            Some(c) => if choice == UserChoice::AcceptAll {
                Some(
                    ConsentModel {
                        accepted_eula: true,
                        eula: Some(c.0),
                        accepted_tos: true,
                        accepted_pp: true,
                        tos: Some(c.1),
                        privacy: Some(c.2),
                        ..m
                    },
                )
            } else {
                Some(ConsentModel { accepted_eula: true, eula: Some(c.0), ..m })
            },
            None => Some(m),
        },
    }
}

/// The newest version a decision offers for later, if any.
pub open spec fn offered(d: UpdateModel, keep: Option<DocModel>) -> Option<DocModel> {
    match d {
        UpdateModel::Future { newest } => Some(newest),
        _ => keep,
    }
}

/// The record after the update screen, before sanitizing: with a forced
/// update, refusing ends consent and accepting marks the documents accepted;
/// otherwise accepting schedules the offered newer versions.
pub open spec fn after_update_choice(
    m: ConsentModel,
    d: (UpdateModel, UpdateModel, UpdateModel),
    choice: UserChoice,
) -> Option<ConsentModel> {
    if any_forced(d) {
        match choice {
            UserChoice::AcceptAll => Some(
                ConsentModel { accepted_eula: true, accepted_tos: true, accepted_pp: true, ..m },
            ),
            UserChoice::AcceptEULA => Some(ConsentModel { accepted_eula: true, ..m }),
            UserChoice::Deny => None,
        }
    } else {
        match choice {
            UserChoice::AcceptAll => Some(
                ConsentModel {
                    future_eula: offered(d.0, m.future_eula),
                    future_tos: offered(d.1, m.future_tos),
                    future_privacy: offered(d.2, m.future_privacy),
                    ..m
                },
            ),
            UserChoice::AcceptEULA => Some(
                ConsentModel { future_eula: offered(d.0, m.future_eula), ..m },
            ),
            UserChoice::Deny => Some(m),
        }
    }
}

fn take_offered(d: UpdateDecision, keep: Option<Doc>) -> (r: Option<Doc>)
    ensures
        opt_view(r) == offered(d@, opt_view(keep)),
{
    match d {
        UpdateDecision::Future { newest } => Some(newest),
        _ => keep,
    }
}

/// Sanitizing is idempotent, and a sanitized record holds no optional
/// consent without the EULA and no scheduled version that is already due.
pub proof fn lemma_sanitized(m: ConsentModel, now: u64)
    ensures
        sanitized(sanitized(m, now), now) == sanitized(m, now),
        sanitized(m, now).accepted_tos ==> sanitized(m, now).accepted_eula,
        sanitized(m, now).accepted_pp ==> sanitized(m, now).accepted_eula,
        sanitized(m, now).future_eula matches Some(d) ==> d.timestamp >= now,
        sanitized(m, now).future_tos matches Some(d) ==> d.timestamp >= now,
        sanitized(m, now).future_privacy matches Some(d) ==> d.timestamp >= now,
{
}

/// The consent manager: the decisions of the consent check, taken between
/// the screens the application shows.
pub struct ConsentManager;

impl ConsentManager {
    /// What each document update asks of the user, given the accepted record
    /// and the versions in force and newest (`None` when either could not be
    /// fetched, or when nothing changed).
    pub fn get_updates(
        accepted_state: &ConsentState,
        current: Option<(Doc, Doc, Doc)>,
        newest: Option<(Doc, Doc, Doc)>,
    ) -> (r: Option<(UpdateDecision, UpdateDecision, UpdateDecision)>)
        ensures
            match (current, newest) {
                (Some(c), Some(n)) => match r {
                    Some(d) => updates(accepted_state@, triple_view(c), triple_view(n)) == Some(
                        decisions_view(d),
                    ),
                    None => updates(accepted_state@, triple_view(c), triple_view(n)) is None,
                },
                _ => r is None,
            },
    {
        match (current, newest) {
            (Some((cur_e, cur_t, cur_p)), Some((new_e, new_t, new_p))) => {
                let e = decide_eula(accepted_state, cur_e, new_e);
                let t = decide_optional(
                    accepted_state.accepted_tos,
                    &accepted_state.tos,
                    &accepted_state.future_tos,
                    cur_t,
                    new_t,
                );
                let p = decide_optional(
                    accepted_state.accepted_pp,
                    &accepted_state.privacy,
                    &accepted_state.future_privacy,
                    cur_p,
                    new_p,
                );
                if is_no_change(&e) && is_no_change(&t) && is_no_change(&p) {
                    None
                } else {
                    Some((e, t, p))
                }
            },
            _ => None,
        }
    }

    /// Whether any decision forces an update.
    pub fn is_forced(d: &(UpdateDecision, UpdateDecision, UpdateDecision)) -> (r: bool)
        ensures
            r == any_forced(decisions_view(*d)),
    {
        is_forced(&d.0) || is_forced(&d.1) || is_forced(&d.2)
    }

    /// The record after the first consent screen (`None` when consent was refused).
    pub fn first_choice(
        state: ConsentState,
        choice: UserChoice,
        current: Option<(Doc, Doc, Doc)>,
    ) -> (r: Option<ConsentState>)
        ensures
            match r {
                Some(s) => after_first_choice(
                    state@,
                    choice,
                    match current {
                        Some(c) => Some(triple_view(c)),
                        None => None,
                    },
                ) == Some(s@),
                None => after_first_choice(
                    state@,
                    choice,
                    match current {
                        Some(c) => Some(triple_view(c)),
                        None => None,
                    },
                ) is None,
            },
    {
        let mut state = state;
        match choice {
            UserChoice::Deny => None,
            _ => {
                if let Some((e, t, p)) = current {
                    state.accepted_eula = true;
                    state.eula = Some(e);
                    if choice == UserChoice::AcceptAll {
                        state.accepted_tos = true;
                        state.accepted_pp = true;
                        state.tos = Some(t);
                        state.privacy = Some(p);
                    }
                }
                Some(state)
            },
        }
    }

    /// The record after the update screen, sanitized at `current_secs`
    /// (`None` when a forced update was refused).
    pub fn update_choice(
        state: ConsentState,
        decisions: (UpdateDecision, UpdateDecision, UpdateDecision),
        choice: UserChoice,
        current_secs: u64,
    ) -> (r: Option<ConsentState>)
        ensures
            match r {
                Some(s) => match after_update_choice(state@, decisions_view(decisions), choice) {
                    Some(m) => s@ == sanitized(m, current_secs),
                    None => false,
                },
                None => after_update_choice(state@, decisions_view(decisions), choice) is None,
            },
    {
        let forced = Self::is_forced(&decisions);
        let mut state = state;
        let (e, t, p) = decisions;
        if forced {
            match choice {
                UserChoice::AcceptAll => {
                    state.accepted_eula = true;
                    state.accepted_tos = true;
                    state.accepted_pp = true;
                },
                UserChoice::AcceptEULA => {
                    state.accepted_eula = true;
                },
                UserChoice::Deny => {
                    return None;
                },
            }
        } else {
            match choice {
                UserChoice::AcceptAll => {
                    let fe = state.future_eula.take();
                    state.future_eula = take_offered(e, fe);
                    let ft = state.future_tos.take();
                    state.future_tos = take_offered(t, ft);
                    let fp = state.future_privacy.take();
                    state.future_privacy = take_offered(p, fp);
                },
                UserChoice::AcceptEULA => {
                    let fe = state.future_eula.take();
                    state.future_eula = take_offered(e, fe);
                },
                UserChoice::Deny => {},
            }
        }
        Some(state.sanitize(current_secs))
    }

    /// What the consent check reports: whether the EULA is accepted, and
    /// whether both optional documents are.
    pub fn outcome(state: &ConsentState) -> (r: (bool, bool))
        ensures
            r == (state@.accepted_eula, state@.accepted_tos && state@.accepted_pp),
    {
        (state.accepted_eula, state.accepted_tos && state.accepted_pp)
    }
}

} // verus!
