//! Reading back the `agreements` file: what the text written for a consent
//! record gives when it is read again.
use crate::terms::consent_state::{
    after, bool_text, consent_from_text, consent_text, current_text, empty_fields, entry, future_text,
    optional_text, read_line, read_lines, record_of, sanitized, ConsentFields, ConsentModel, CONSENT_HEADER,
    EULA_HASH_KEY, EULA_KEY, EULA_NOTE, EULA_VERSION_KEY, FUTURE_EULA_HASH_KEY, FUTURE_EULA_TIME_KEY,
    FUTURE_EULA_VERSION_KEY, FUTURE_PP_HASH_KEY, FUTURE_PP_TIME_KEY, FUTURE_PP_VERSION_KEY,
    FUTURE_TOS_HASH_KEY, FUTURE_TOS_TIME_KEY, FUTURE_TOS_VERSION_KEY, NO_EULA_NOTE, PP_HASH_KEY, PP_KEY,
    PP_NOTE, PP_VERSION_KEY, TOS_HASH_KEY, TOS_KEY, TOS_NOTE, TOS_VERSION_KEY, UNIX_KEY,
};
use crate::terms::doc::DocModel;
use crate::terms::terms_getter::Type;
use crate::text::{
    decimal, is_digit, join_lines, lacks, lemma_concat_lacks, lemma_decimal_digits,
    lemma_differs_at, lemma_lines_of_join, lemma_parse_decimal, lines_of, plain_lines, strip_cr,
};
use vstd::prelude::*;

verus! {

pub const HEADER_LINE_1: &'static str = "This file reflects the current consent state used by the application.";

pub const HEADER_LINE_2: &'static str = "It may be regenerated or overwritten by the application.";

pub const HEADER_LINE_3: &'static str = "This file was last edited by Tensamin at:";

pub const EULA_LINE: &'static str = "\"EULA=true\" indicates that you read, understood and accepted Tensamin's End User Licence agreement. You can find our EULA at https://legal.tensamin.net/eula/";

pub const TOS_LINE: &'static str = "\"Terms-of-Service=true\" indicates that you read, understood and accepted Tensamin's Terms of Service. You can find our Terms of Serivce at https://legal.tensamin.net/tos/";

pub const PP_LINE: &'static str = "\"Privacy-Policy=true\" indicates that you read, understood and accepted Tensamin's Privacy Policy. You can find our Privacy Policy at https://legal.tensamin.net/privacy/";

pub const NO_EULA_LINE: &'static str = "\"EULA=true\" indicates that you read, understood and accepted Tensamin's End User Licence Agreement. You can find Tensamin's EULA at https://legal.tensamin.net/eula/";

/// A value that stays on the line of its key: no line break in it, and no
/// carriage return at its end.
pub open spec fn plain_value(v: Seq<char>) -> bool {
    lacks(v, '\n') && (v.len() == 0 || v.last() != '\r')
}

/// The version name and hash of a document, if any, are plain values.
pub open spec fn plain_doc(d: Option<DocModel>) -> bool {
    match d {
        Some(d) => plain_value(d.version) && plain_value(d.hash),
        None => true,
    }
}

/// Every version name and hash of the record is a plain value.
pub open spec fn plain_record(m: ConsentModel) -> bool {
    &&& plain_doc(m.eula)
    &&& plain_doc(m.future_eula)
    &&& plain_doc(m.tos)
    &&& plain_doc(m.future_tos)
    &&& plain_doc(m.privacy)
    &&& plain_doc(m.future_privacy)
}

/// A scheduled version as the file keeps it: of the kind of its slot, and
/// only when its version name is not empty.
pub open spec fn kept_future(d: Option<DocModel>, t: Type) -> Option<DocModel> {
    match d {
        Some(d) => if d.version.len() > 0 {
            Some(DocModel { version: d.version, hash: d.hash, doc_type: t, timestamp: d.timestamp })
        } else {
            None
        },
        None => None,
    }
}

/// A current version as the file keeps it: name and hash when it was
/// written, empty ones otherwise, stamped with the time of writing.
pub open spec fn kept_current(written: bool, d: Option<DocModel>, t: Type, at: u64) -> DocModel {
    if written {
        DocModel { version: d->0.version, hash: d->0.hash, doc_type: t, timestamp: at }
    } else {
        DocModel { version: Seq::empty(), hash: Seq::empty(), doc_type: t, timestamp: at }
    }
}

/// The record that the `agreements` file written from `m` at `written`
/// holds: the EULA when there is one, an optional document only when it is
/// accepted as well, and the scheduled versions.
pub open spec fn kept_record(m: ConsentModel, written: u64) -> ConsentModel {
    let tos_kept = m.eula is Some && m.accepted_tos && m.tos is Some;
    let pp_kept = m.eula is Some && m.accepted_pp && m.privacy is Some;
    ConsentModel {
        eula: Some(kept_current(m.eula is Some, m.eula, Type::EULA, written)),
        accepted_eula: m.eula is Some && m.accepted_eula,
        future_eula: kept_future(m.future_eula, Type::EULA),
        tos: Some(kept_current(tos_kept, m.tos, Type::TOS, written)),
        accepted_tos: tos_kept,
        future_tos: kept_future(m.future_tos, Type::TOS),
        privacy: Some(kept_current(pp_kept, m.privacy, Type::PP, written)),
        accepted_pp: pp_kept,
        future_privacy: kept_future(m.future_privacy, Type::PP),
    }
}

/// Lines each preceded by a line break.
spec fn prefixed(ls: Seq<Seq<char>>) -> Seq<char>
    decreases ls.len(),
{
    if ls.len() == 0 {
        Seq::empty()
    } else {
        prefixed(ls.drop_last()) + seq!['\n'] + ls.last()
    }
}

/// The fields after reading `ls` in order, starting from `f`.
spec fn read_from(f: ConsentFields, ls: Seq<Seq<char>>) -> ConsentFields
    decreases ls.len(),
{
    if ls.len() == 0 {
        f
    } else {
        read_line(read_from(f, ls.drop_last()), ls.last())
    }
}

/// A line with no line break, no carriage return at its end, and something on it.
spec fn line_ok(l: Seq<char>) -> bool {
    lacks(l, '\n') && strip_cr(l) == l && l.len() > 0
}

spec fn lines_ok(ls: Seq<Seq<char>>) -> bool {
    forall|k: int| 0 <= k < ls.len() ==> line_ok(#[trigger] ls[k])
}

spec fn header_lines(now: u64) -> Seq<Seq<char>> {
    seq![HEADER_LINE_1@, HEADER_LINE_2@, HEADER_LINE_3@, UNIX_KEY@ + decimal(now as nat)]
}

spec fn optional_lines(
    accepted: bool,
    d: Option<DocModel>,
    line: &'static str,
    key: &'static str,
    vkey: &'static str,
    hkey: &'static str,
) -> Seq<Seq<char>> {
    if accepted && d is Some {
        seq![line@, key@ + bool_text(accepted), vkey@ + d->0.version, hkey@ + d->0.hash]
    } else {
        Seq::empty()
    }
}

spec fn current_lines(m: ConsentModel) -> Seq<Seq<char>> {
    match m.eula {
        Some(e) => seq![
            EULA_LINE@,
            EULA_KEY@ + bool_text(m.accepted_eula),
            EULA_VERSION_KEY@ + e.version,
            EULA_HASH_KEY@ + e.hash,
        ] + optional_lines(m.accepted_tos, m.tos, TOS_LINE, TOS_KEY, TOS_VERSION_KEY, TOS_HASH_KEY)
            + optional_lines(m.accepted_pp, m.privacy, PP_LINE, PP_KEY, PP_VERSION_KEY, PP_HASH_KEY),
        None => seq![NO_EULA_LINE@, EULA_KEY@ + bool_text(false)],
    }
}

spec fn future_lines(d: Option<DocModel>, vkey: &'static str, hkey: &'static str, tkey: &'static str) -> Seq<
    Seq<char>,
> {
    match d {
        Some(d) => seq![vkey@ + d.version, hkey@ + d.hash, tkey@ + decimal(d.timestamp as nat)],
        None => Seq::empty(),
    }
}

spec fn body_lines(m: ConsentModel) -> Seq<Seq<char>> {
    current_lines(m) + future_lines(m.future_eula, FUTURE_EULA_VERSION_KEY, FUTURE_EULA_HASH_KEY, FUTURE_EULA_TIME_KEY)
        + future_lines(m.future_tos, FUTURE_TOS_VERSION_KEY, FUTURE_TOS_HASH_KEY, FUTURE_TOS_TIME_KEY)
        + future_lines(m.future_privacy, FUTURE_PP_VERSION_KEY, FUTURE_PP_HASH_KEY, FUTURE_PP_TIME_KEY)
}

spec fn file_lines(m: ConsentModel, now: u64) -> Seq<Seq<char>> {
    header_lines(now) + body_lines(m)
}

proof fn lemma_join_append(a: Seq<Seq<char>>, b: Seq<Seq<char>>)
    requires
        a.len() >= 1,
    ensures
        join_lines(a + b) == join_lines(a) + prefixed(b),
    decreases b.len(),
{
    if b.len() == 0 {
        assert(a + b =~= a);
        assert(join_lines(a) + prefixed(b) =~= join_lines(a));
    } else {
        lemma_join_append(a, b.drop_last());
        assert((a + b).drop_last() =~= a + b.drop_last());
        assert((a + b).last() == b.last());
        assert(join_lines(a + b) =~= join_lines(a) + prefixed(b));
    }
}

proof fn lemma_prefixed_append(a: Seq<Seq<char>>, b: Seq<Seq<char>>)
    ensures
        prefixed(a + b) == prefixed(a) + prefixed(b),
    decreases b.len(),
{
    if b.len() == 0 {
        assert(a + b =~= a);
        assert(prefixed(a) + prefixed(b) =~= prefixed(a));
    } else {
        lemma_prefixed_append(a, b.drop_last());
        assert((a + b).drop_last() =~= a + b.drop_last());
        assert((a + b).last() == b.last());
        assert(prefixed(a + b) =~= prefixed(a) + prefixed(b));
    }
}

proof fn lemma_read_append(f: ConsentFields, a: Seq<Seq<char>>, b: Seq<Seq<char>>)
    ensures
        read_from(f, a + b) == read_from(read_from(f, a), b),
    decreases b.len(),
{
    if b.len() == 0 {
        assert(a + b =~= a);
    } else {
        lemma_read_append(f, a, b.drop_last());
        assert((a + b).drop_last() =~= a + b.drop_last());
        assert((a + b).last() == b.last());
    }
}

proof fn lemma_read_lines_from(ls: Seq<Seq<char>>)
    ensures
        read_lines(ls) == read_from(empty_fields(), ls),
    decreases ls.len(),
{
    if ls.len() > 0 {
        lemma_read_lines_from(ls.drop_last());
    }
}

proof fn lemma_lines_ok_append(a: Seq<Seq<char>>, b: Seq<Seq<char>>)
    requires
        lines_ok(a),
        lines_ok(b),
    ensures
        lines_ok(a + b),
{
    assert forall|k: int| 0 <= k < (a + b).len() implies line_ok(#[trigger] (a + b)[k]) by {
        if k < a.len() {
            assert((a + b)[k] == a[k]);
        } else {
            assert((a + b)[k] == b[k - a.len()]);
        }
    }
}

/// A key line: a key, then a plain value.
proof fn lemma_key_value_ok(k: Seq<char>, v: Seq<char>)
    requires
        line_ok(k),
        plain_value(v),
    ensures
        line_ok(k + v),
{
    lemma_concat_lacks(k, v, '\n');
    if v.len() == 0 {
        assert(k + v =~= k);
    } else {
        assert((k + v).last() == v.last());
    }
}

proof fn lemma_bool_plain(b: bool)
    ensures
        plain_value(bool_text(b)),
        (bool_text(b) == "true"@) == b,
{
    reveal_strlit("true");
    reveal_strlit("false");
    if !b {
        assert(bool_text(b).len() != "true"@.len());
    }
}

proof fn lemma_decimal_plain(n: nat)
    ensures
        plain_value(decimal(n)),
{
    lemma_decimal_digits(n);
    let d = decimal(n);
    assert forall|i: int| 0 <= i < d.len() implies d[i] != '\n' by {
        assert(is_digit(d[i]));
    }
    assert(is_digit(d[d.len() - 1]));
}

proof fn lemma_prefixed_1(a: Seq<char>)
    ensures
        prefixed(seq![a]) == seq!['\n'] + a,
{
    assert(seq![a].drop_last() =~= Seq::<Seq<char>>::empty());
    assert(prefixed(Seq::<Seq<char>>::empty()) =~= Seq::<char>::empty());
    assert(prefixed(seq![a]) =~= seq!['\n'] + a);
}

proof fn lemma_prefixed_2(a: Seq<char>, b: Seq<char>)
    ensures
        prefixed(seq![a, b]) == seq!['\n'] + a + seq!['\n'] + b,
{
    lemma_prefixed_1(a);
    assert(seq![a, b].drop_last() =~= seq![a]);
    assert(prefixed(seq![a, b]) =~= seq!['\n'] + a + seq!['\n'] + b);
}

proof fn lemma_prefixed_3(a: Seq<char>, b: Seq<char>, c: Seq<char>)
    ensures
        prefixed(seq![a, b, c]) == seq!['\n'] + a + seq!['\n'] + b + seq!['\n'] + c,
{
    lemma_prefixed_2(a, b);
    assert(seq![a, b, c].drop_last() =~= seq![a, b]);
    assert(prefixed(seq![a, b, c]) =~= seq!['\n'] + a + seq!['\n'] + b + seq!['\n'] + c);
}

proof fn lemma_prefixed_4(a: Seq<char>, b: Seq<char>, c: Seq<char>, d: Seq<char>)
    ensures
        prefixed(seq![a, b, c, d]) == seq!['\n'] + a + seq!['\n'] + b + seq!['\n'] + c + seq!['\n'] + d,
{
    lemma_prefixed_3(a, b, c);
    assert(seq![a, b, c, d].drop_last() =~= seq![a, b, c]);
    assert(prefixed(seq![a, b, c, d]) =~= seq!['\n'] + a + seq!['\n'] + b + seq!['\n'] + c + seq!['\n'] + d);
}

proof fn lemma_newline()
    ensures
        "\n"@ == seq!['\n'],
{
    reveal_strlit("\n");
}

proof fn lemma_header_text(now: u64)
    ensures
        CONSENT_HEADER@ + decimal(now as nat) == join_lines(header_lines(now)),
{
    reveal_strlit("This file reflects the current consent state used by the application.\nIt may be regenerated or overwritten by the application.\nThis file was last edited by Tensamin at:\nUNIX-SECOND=");
    reveal_strlit("This file reflects the current consent state used by the application.");
    reveal_strlit("It may be regenerated or overwritten by the application.");
    reveal_strlit("This file was last edited by Tensamin at:");
    reveal_strlit("UNIX-SECOND=");
    let h = header_lines(now);
    let rest = seq![HEADER_LINE_2@, HEADER_LINE_3@, UNIX_KEY@ + decimal(now as nat)];
    assert(h =~= seq![HEADER_LINE_1@] + rest);
    lemma_join_append(seq![HEADER_LINE_1@], rest);
    lemma_prefixed_3(HEADER_LINE_2@, HEADER_LINE_3@, UNIX_KEY@ + decimal(now as nat));
    assert(CONSENT_HEADER@ =~= HEADER_LINE_1@ + seq!['\n'] + HEADER_LINE_2@ + seq!['\n'] + HEADER_LINE_3@
        + seq!['\n'] + UNIX_KEY@);
    assert(CONSENT_HEADER@ + decimal(now as nat) =~= join_lines(h));
}

proof fn lemma_notes()
    ensures
        EULA_NOTE@ == seq!['\n'] + EULA_LINE@ + seq!['\n'] + EULA_KEY@,
        TOS_NOTE@ == seq!['\n'] + TOS_LINE@ + seq!['\n'] + TOS_KEY@,
        PP_NOTE@ == seq!['\n'] + PP_LINE@ + seq!['\n'] + PP_KEY@,
        NO_EULA_NOTE@ == seq!['\n'] + NO_EULA_LINE@ + seq!['\n'] + EULA_KEY@ + bool_text(false),
{
    reveal_strlit("\n\"EULA=true\" indicates that you read, understood and accepted Tensamin's End User Licence agreement. You can find our EULA at https://legal.tensamin.net/eula/\nEULA=");
    reveal_strlit("\"EULA=true\" indicates that you read, understood and accepted Tensamin's End User Licence agreement. You can find our EULA at https://legal.tensamin.net/eula/");
    reveal_strlit("EULA=");
    reveal_strlit("\n\"Terms-of-Service=true\" indicates that you read, understood and accepted Tensamin's Terms of Service. You can find our Terms of Serivce at https://legal.tensamin.net/tos/\nTerms-of-Service=");
    reveal_strlit("\"Terms-of-Service=true\" indicates that you read, understood and accepted Tensamin's Terms of Service. You can find our Terms of Serivce at https://legal.tensamin.net/tos/");
    reveal_strlit("Terms-of-Service=");
    reveal_strlit("\n\"Privacy-Policy=true\" indicates that you read, understood and accepted Tensamin's Privacy Policy. You can find our Privacy Policy at https://legal.tensamin.net/privacy/\nPrivacy-Policy=");
    reveal_strlit("\"Privacy-Policy=true\" indicates that you read, understood and accepted Tensamin's Privacy Policy. You can find our Privacy Policy at https://legal.tensamin.net/privacy/");
    reveal_strlit("Privacy-Policy=");
    reveal_strlit("\n\"EULA=true\" indicates that you read, understood and accepted Tensamin's End User Licence Agreement. You can find Tensamin's EULA at https://legal.tensamin.net/eula/\nEULA=false");
    reveal_strlit("\"EULA=true\" indicates that you read, understood and accepted Tensamin's End User Licence Agreement. You can find Tensamin's EULA at https://legal.tensamin.net/eula/");
    reveal_strlit("false");
    assert(EULA_NOTE@ =~= seq!['\n'] + EULA_LINE@ + seq!['\n'] + EULA_KEY@);
    assert(TOS_NOTE@ =~= seq!['\n'] + TOS_LINE@ + seq!['\n'] + TOS_KEY@);
    assert(PP_NOTE@ =~= seq!['\n'] + PP_LINE@ + seq!['\n'] + PP_KEY@);
    assert(NO_EULA_NOTE@ =~= seq!['\n'] + NO_EULA_LINE@ + seq!['\n'] + EULA_KEY@ + bool_text(false));
}

proof fn lemma_optional_text(
    accepted: bool,
    d: Option<DocModel>,
    note: &'static str,
    line: &'static str,
    key: &'static str,
    vkey: &'static str,
    hkey: &'static str,
)
    requires
        note@ == seq!['\n'] + line@ + seq!['\n'] + key@,
    ensures
        optional_text(accepted, d, note, vkey, hkey) == prefixed(optional_lines(accepted, d, line, key, vkey, hkey)),
{
    if accepted && d is Some {
        let v = d->0.version;
        let h = d->0.hash;
        lemma_newline();
        lemma_prefixed_4(line@, key@ + bool_text(accepted), vkey@ + v, hkey@ + h);
        assert(optional_text(accepted, d, note, vkey, hkey) =~= seq!['\n'] + line@ + seq!['\n'] + (key@
            + bool_text(accepted)) + seq!['\n'] + (vkey@ + v) + seq!['\n'] + (hkey@ + h));
    } else {
        assert(prefixed(Seq::<Seq<char>>::empty()) == Seq::<char>::empty());
    }
}

proof fn lemma_current_text(m: ConsentModel)
    ensures
        current_text(m) == prefixed(current_lines(m)),
{
    lemma_notes();
    lemma_newline();
    match m.eula {
        Some(e) => {
            let first = seq![
                EULA_LINE@,
                EULA_KEY@ + bool_text(m.accepted_eula),
                EULA_VERSION_KEY@ + e.version,
                EULA_HASH_KEY@ + e.hash,
            ];
            let t = optional_lines(m.accepted_tos, m.tos, TOS_LINE, TOS_KEY, TOS_VERSION_KEY, TOS_HASH_KEY);
            let p = optional_lines(m.accepted_pp, m.privacy, PP_LINE, PP_KEY, PP_VERSION_KEY, PP_HASH_KEY);
            lemma_prefixed_4(
                EULA_LINE@,
                EULA_KEY@ + bool_text(m.accepted_eula),
                EULA_VERSION_KEY@ + e.version,
                EULA_HASH_KEY@ + e.hash,
            );
            lemma_optional_text(m.accepted_tos, m.tos, TOS_NOTE, TOS_LINE, TOS_KEY, TOS_VERSION_KEY, TOS_HASH_KEY);
            lemma_optional_text(m.accepted_pp, m.privacy, PP_NOTE, PP_LINE, PP_KEY, PP_VERSION_KEY, PP_HASH_KEY);
            lemma_prefixed_append(first, t);
            lemma_prefixed_append(first + t, p);
            assert(EULA_NOTE@ + bool_text(m.accepted_eula) + entry(EULA_VERSION_KEY, e.version) + entry(
                EULA_HASH_KEY,
                e.hash,
            ) =~= prefixed(first));
        },
        None => {
            lemma_prefixed_2(NO_EULA_LINE@, EULA_KEY@ + bool_text(false));
            assert(NO_EULA_NOTE@ =~= prefixed(seq![NO_EULA_LINE@, EULA_KEY@ + bool_text(false)]));
        },
    }
}

proof fn lemma_future_text(d: Option<DocModel>, vkey: &'static str, hkey: &'static str, tkey: &'static str)
    ensures
        future_text(d, vkey, hkey, tkey) == prefixed(future_lines(d, vkey, hkey, tkey)),
{
    lemma_newline();
    match d {
        Some(x) => {
            lemma_prefixed_3(vkey@ + x.version, hkey@ + x.hash, tkey@ + decimal(x.timestamp as nat));
            assert(future_text(d, vkey, hkey, tkey) =~= seq!['\n'] + (vkey@ + x.version) + seq!['\n'] + (hkey@
                + x.hash) + seq!['\n'] + (tkey@ + decimal(x.timestamp as nat)));
        },
        None => {
            assert(prefixed(Seq::<Seq<char>>::empty()) == Seq::<char>::empty());
        },
    }
}

/// The file is its lines joined by line breaks.
proof fn lemma_file_text(m: ConsentModel, now: u64)
    ensures
        consent_text(m, now) == join_lines(file_lines(m, now)),
{
    let c = current_lines(m);
    let fe = future_lines(m.future_eula, FUTURE_EULA_VERSION_KEY, FUTURE_EULA_HASH_KEY, FUTURE_EULA_TIME_KEY);
    let ft = future_lines(m.future_tos, FUTURE_TOS_VERSION_KEY, FUTURE_TOS_HASH_KEY, FUTURE_TOS_TIME_KEY);
    let fp = future_lines(m.future_privacy, FUTURE_PP_VERSION_KEY, FUTURE_PP_HASH_KEY, FUTURE_PP_TIME_KEY);
    lemma_header_text(now);
    lemma_current_text(m);
    lemma_future_text(m.future_eula, FUTURE_EULA_VERSION_KEY, FUTURE_EULA_HASH_KEY, FUTURE_EULA_TIME_KEY);
    lemma_future_text(m.future_tos, FUTURE_TOS_VERSION_KEY, FUTURE_TOS_HASH_KEY, FUTURE_TOS_TIME_KEY);
    lemma_future_text(m.future_privacy, FUTURE_PP_VERSION_KEY, FUTURE_PP_HASH_KEY, FUTURE_PP_TIME_KEY);
    lemma_join_append(header_lines(now), body_lines(m));
    lemma_prefixed_append(c, fe);
    lemma_prefixed_append(c + fe, ft);
    lemma_prefixed_append(c + fe + ft, fp);
    assert(consent_text(m, now) =~= join_lines(header_lines(now)) + prefixed(body_lines(m)));
}

proof fn lemma_header_ok(now: u64)
    ensures
        lines_ok(header_lines(now)),
{
    lemma_header_line_1_ok();
    lemma_header_line_2_ok();
    lemma_header_line_3_ok();
    lemma_unix_key_ok();
    lemma_decimal_plain(now as nat);
    lemma_key_value_ok(UNIX_KEY@, decimal(now as nat));
    let h = header_lines(now);
    assert forall|k: int| 0 <= k < h.len() implies line_ok(#[trigger] h[k]) by {
        if k == 0 {
        } else if k == 1 {
        } else if k == 2 {
        } else {
        }
    }
}

proof fn lemma_optional_ok(
    accepted: bool,
    d: Option<DocModel>,
    line: &'static str,
    key: &'static str,
    vkey: &'static str,
    hkey: &'static str,
)
    requires
        plain_doc(d),
        line_ok(line@),
        line_ok(key@),
        line_ok(vkey@),
        line_ok(hkey@),
    ensures
        lines_ok(optional_lines(accepted, d, line, key, vkey, hkey)),
{
    if accepted && d is Some {
        lemma_bool_plain(accepted);
        lemma_key_value_ok(key@, bool_text(accepted));
        lemma_key_value_ok(vkey@, d->0.version);
        lemma_key_value_ok(hkey@, d->0.hash);
        let ls = optional_lines(accepted, d, line, key, vkey, hkey);
        assert forall|k: int| 0 <= k < ls.len() implies line_ok(#[trigger] ls[k]) by {
            if k == 0 {
            } else if k == 1 {
            } else if k == 2 {
            } else {
            }
        }
    }
}

proof fn lemma_future_ok(d: Option<DocModel>, vkey: &'static str, hkey: &'static str, tkey: &'static str)
    requires
        plain_doc(d),
        line_ok(vkey@),
        line_ok(hkey@),
        line_ok(tkey@),
    ensures
        lines_ok(future_lines(d, vkey, hkey, tkey)),
{
    if let Some(x) = d {
        lemma_decimal_plain(x.timestamp as nat);
        lemma_key_value_ok(vkey@, x.version);
        lemma_key_value_ok(hkey@, x.hash);
        lemma_key_value_ok(tkey@, decimal(x.timestamp as nat));
        let ls = future_lines(d, vkey, hkey, tkey);
        assert forall|k: int| 0 <= k < ls.len() implies line_ok(#[trigger] ls[k]) by {
            if k == 0 {
            } else if k == 1 {
            } else {
            }
        }
    }
}

proof fn lemma_current_ok(m: ConsentModel)
    requires
        plain_record(m),
    ensures
        lines_ok(current_lines(m)),
{
    lemma_eula_key_ok();
    lemma_bool_plain(m.accepted_eula);
    lemma_bool_plain(false);
    lemma_key_value_ok(EULA_KEY@, bool_text(m.accepted_eula));
    lemma_key_value_ok(EULA_KEY@, bool_text(false));
    match m.eula {
        Some(e) => {
            lemma_eula_line_ok();
            lemma_eula_version_key_ok();
            lemma_eula_hash_key_ok();
            lemma_key_value_ok(EULA_VERSION_KEY@, e.version);
            lemma_key_value_ok(EULA_HASH_KEY@, e.hash);
            let first = seq![
                EULA_LINE@,
                EULA_KEY@ + bool_text(m.accepted_eula),
                EULA_VERSION_KEY@ + e.version,
                EULA_HASH_KEY@ + e.hash,
            ];
            assert forall|k: int| 0 <= k < first.len() implies line_ok(#[trigger] first[k]) by {
                if k == 0 {
                } else if k == 1 {
                } else if k == 2 {
                } else {
                }
            }
            lemma_tos_line_ok();
            lemma_tos_key_ok();
            lemma_tos_version_key_ok();
            lemma_tos_hash_key_ok();
            lemma_pp_line_ok();
            lemma_pp_key_ok();
            lemma_pp_version_key_ok();
            lemma_pp_hash_key_ok();
            let t = optional_lines(m.accepted_tos, m.tos, TOS_LINE, TOS_KEY, TOS_VERSION_KEY, TOS_HASH_KEY);
            let p = optional_lines(m.accepted_pp, m.privacy, PP_LINE, PP_KEY, PP_VERSION_KEY, PP_HASH_KEY);
            lemma_optional_ok(m.accepted_tos, m.tos, TOS_LINE, TOS_KEY, TOS_VERSION_KEY, TOS_HASH_KEY);
            lemma_optional_ok(m.accepted_pp, m.privacy, PP_LINE, PP_KEY, PP_VERSION_KEY, PP_HASH_KEY);
            lemma_lines_ok_append(first, t);
            lemma_lines_ok_append(first + t, p);
        },
        None => {
            lemma_no_eula_line_ok();
            let ls = seq![NO_EULA_LINE@, EULA_KEY@ + bool_text(false)];
            assert forall|k: int| 0 <= k < ls.len() implies line_ok(#[trigger] ls[k]) by {
                if k == 0 {
                } else {
                }
            }
        },
    }
}

/// The lines of the file are plain: `lines_of` gives them back.
proof fn lemma_file_lines_plain(m: ConsentModel, now: u64)
    requires
        plain_record(m),
    ensures
        plain_lines(file_lines(m, now)),
{
    let c = current_lines(m);
    let fe = future_lines(m.future_eula, FUTURE_EULA_VERSION_KEY, FUTURE_EULA_HASH_KEY, FUTURE_EULA_TIME_KEY);
    let ft = future_lines(m.future_tos, FUTURE_TOS_VERSION_KEY, FUTURE_TOS_HASH_KEY, FUTURE_TOS_TIME_KEY);
    let fp = future_lines(m.future_privacy, FUTURE_PP_VERSION_KEY, FUTURE_PP_HASH_KEY, FUTURE_PP_TIME_KEY);
    lemma_header_ok(now);
    lemma_current_ok(m);
    lemma_f_eula_version_key_ok();
    lemma_f_eula_hash_key_ok();
    lemma_f_eula_time_key_ok();
    lemma_f_tos_version_key_ok();
    lemma_f_tos_hash_key_ok();
    lemma_f_tos_time_key_ok();
    lemma_f_pp_version_key_ok();
    lemma_f_pp_hash_key_ok();
    lemma_f_pp_time_key_ok();
    lemma_future_ok(m.future_eula, FUTURE_EULA_VERSION_KEY, FUTURE_EULA_HASH_KEY, FUTURE_EULA_TIME_KEY);
    lemma_future_ok(m.future_tos, FUTURE_TOS_VERSION_KEY, FUTURE_TOS_HASH_KEY, FUTURE_TOS_TIME_KEY);
    lemma_future_ok(m.future_privacy, FUTURE_PP_VERSION_KEY, FUTURE_PP_HASH_KEY, FUTURE_PP_TIME_KEY);
    lemma_lines_ok_append(c, fe);
    lemma_lines_ok_append(c + fe, ft);
    lemma_lines_ok_append(c + fe + ft, fp);
    lemma_lines_ok_append(header_lines(now), body_lines(m));
    let ls = file_lines(m, now);
    assert(line_ok(ls[ls.len() - 1]));
    assert forall|k: int| 0 <= k < ls.len() implies lacks(#[trigger] ls[k], '\n') by {
        assert(line_ok(ls[k]));
    }
    assert forall|k: int| 0 <= k < ls.len() implies strip_cr(#[trigger] ls[k]) == ls[k] by {
        assert(line_ok(ls[k]));
    }
}

proof fn lemma_read_eula(f: ConsentFields, v: Seq<char>)
    ensures
        read_line(f, EULA_KEY@ + v) == (ConsentFields { eula: v == "true"@, ..f }),
{
    reveal_strlit("EULA=");
    reveal_strlit("true");
    let l = EULA_KEY@ + v;
    assert(l.subrange(0, EULA_KEY@.len() as int) =~= EULA_KEY@);
    assert(after(l, EULA_KEY) =~= v);
}

proof fn lemma_read_eula_version(f: ConsentFields, v: Seq<char>)
    ensures
        read_line(f, EULA_VERSION_KEY@ + v) == (ConsentFields { eula_version: v, ..f }),
{
    reveal_strlit("EULA-VERSION=");
    reveal_strlit("EULA=");
    let l = EULA_VERSION_KEY@ + v;
    lemma_differs_at(l, EULA_KEY@, 4);
    assert(l.subrange(0, EULA_VERSION_KEY@.len() as int) =~= EULA_VERSION_KEY@);
    assert(after(l, EULA_VERSION_KEY) =~= v);
}

proof fn lemma_read_eula_hash(f: ConsentFields, v: Seq<char>)
    ensures
        read_line(f, EULA_HASH_KEY@ + v) == (ConsentFields { eula_hash: v, ..f }),
{
    reveal_strlit("EULA-HASH=");
    reveal_strlit("EULA=");
    reveal_strlit("EULA-VERSION=");
    let l = EULA_HASH_KEY@ + v;
    lemma_differs_at(l, EULA_KEY@, 4);
    lemma_differs_at(l, EULA_VERSION_KEY@, 5);
    assert(l.subrange(0, EULA_HASH_KEY@.len() as int) =~= EULA_HASH_KEY@);
    assert(after(l, EULA_HASH_KEY) =~= v);
}

proof fn lemma_read_tos(f: ConsentFields, v: Seq<char>)
    ensures
        read_line(f, TOS_KEY@ + v) == (ConsentFields { tos: v == "true"@, ..f }),
{
    reveal_strlit("Terms-of-Service=");
    reveal_strlit("EULA=");
    reveal_strlit("EULA-VERSION=");
    reveal_strlit("EULA-HASH=");
    reveal_strlit("true");
    let l = TOS_KEY@ + v;
    lemma_differs_at(l, EULA_KEY@, 0);
    lemma_differs_at(l, EULA_VERSION_KEY@, 0);
    lemma_differs_at(l, EULA_HASH_KEY@, 0);
    assert(l.subrange(0, TOS_KEY@.len() as int) =~= TOS_KEY@);
    assert(after(l, TOS_KEY) =~= v);
}

proof fn lemma_read_tos_version(f: ConsentFields, v: Seq<char>)
    ensures
        read_line(f, TOS_VERSION_KEY@ + v) == (ConsentFields { tos_version: v, ..f }),
{
    reveal_strlit("Terms-of-Service-VERSION=");
    reveal_strlit("EULA=");
    reveal_strlit("EULA-VERSION=");
    reveal_strlit("EULA-HASH=");
    reveal_strlit("Terms-of-Service=");
    let l = TOS_VERSION_KEY@ + v;
    lemma_differs_at(l, EULA_KEY@, 0);
    lemma_differs_at(l, EULA_VERSION_KEY@, 0);
    lemma_differs_at(l, EULA_HASH_KEY@, 0);
    lemma_differs_at(l, TOS_KEY@, 16);
    assert(l.subrange(0, TOS_VERSION_KEY@.len() as int) =~= TOS_VERSION_KEY@);
    assert(after(l, TOS_VERSION_KEY) =~= v);
}

proof fn lemma_read_tos_hash(f: ConsentFields, v: Seq<char>)
    ensures
        read_line(f, TOS_HASH_KEY@ + v) == (ConsentFields { tos_hash: v, ..f }),
{
    reveal_strlit("Terms-of-Service-HASH=");
    reveal_strlit("EULA=");
    reveal_strlit("EULA-VERSION=");
    reveal_strlit("EULA-HASH=");
    reveal_strlit("Terms-of-Service=");
    reveal_strlit("Terms-of-Service-VERSION=");
    let l = TOS_HASH_KEY@ + v;
    lemma_differs_at(l, EULA_KEY@, 0);
    lemma_differs_at(l, EULA_VERSION_KEY@, 0);
    lemma_differs_at(l, EULA_HASH_KEY@, 0);
    lemma_differs_at(l, TOS_KEY@, 16);
    lemma_differs_at(l, TOS_VERSION_KEY@, 17);
    assert(l.subrange(0, TOS_HASH_KEY@.len() as int) =~= TOS_HASH_KEY@);
    assert(after(l, TOS_HASH_KEY) =~= v);
}

proof fn lemma_read_pp(f: ConsentFields, v: Seq<char>)
    ensures
        read_line(f, PP_KEY@ + v) == (ConsentFields { pp: v == "true"@, ..f }),
{
    reveal_strlit("Privacy-Policy=");
    reveal_strlit("EULA=");
    reveal_strlit("EULA-VERSION=");
    reveal_strlit("EULA-HASH=");
    reveal_strlit("Terms-of-Service=");
    reveal_strlit("Terms-of-Service-VERSION=");
    reveal_strlit("Terms-of-Service-HASH=");
    reveal_strlit("true");
    let l = PP_KEY@ + v;
    lemma_differs_at(l, EULA_KEY@, 0);
    lemma_differs_at(l, EULA_VERSION_KEY@, 0);
    lemma_differs_at(l, EULA_HASH_KEY@, 0);
    lemma_differs_at(l, TOS_KEY@, 0);
    lemma_differs_at(l, TOS_VERSION_KEY@, 0);
    lemma_differs_at(l, TOS_HASH_KEY@, 0);
    assert(l.subrange(0, PP_KEY@.len() as int) =~= PP_KEY@);
    assert(after(l, PP_KEY) =~= v);
}

proof fn lemma_read_pp_version(f: ConsentFields, v: Seq<char>)
    ensures
        read_line(f, PP_VERSION_KEY@ + v) == (ConsentFields { pp_version: v, ..f }),
{
    reveal_strlit("Privacy-Policy-VERSION=");
    reveal_strlit("EULA=");
    reveal_strlit("EULA-VERSION=");
    reveal_strlit("EULA-HASH=");
    reveal_strlit("Terms-of-Service=");
    reveal_strlit("Terms-of-Service-VERSION=");
    reveal_strlit("Terms-of-Service-HASH=");
    reveal_strlit("Privacy-Policy=");
    let l = PP_VERSION_KEY@ + v;
    lemma_differs_at(l, EULA_KEY@, 0);
    lemma_differs_at(l, EULA_VERSION_KEY@, 0);
    lemma_differs_at(l, EULA_HASH_KEY@, 0);
    lemma_differs_at(l, TOS_KEY@, 0);
    lemma_differs_at(l, TOS_VERSION_KEY@, 0);
    lemma_differs_at(l, TOS_HASH_KEY@, 0);
    lemma_differs_at(l, PP_KEY@, 14);
    assert(l.subrange(0, PP_VERSION_KEY@.len() as int) =~= PP_VERSION_KEY@);
    assert(after(l, PP_VERSION_KEY) =~= v);
}

proof fn lemma_read_pp_hash(f: ConsentFields, v: Seq<char>)
    ensures
        read_line(f, PP_HASH_KEY@ + v) == (ConsentFields { pp_hash: v, ..f }),
{
    reveal_strlit("Privacy-Policy-HASH=");
    reveal_strlit("EULA=");
    reveal_strlit("EULA-VERSION=");
    reveal_strlit("EULA-HASH=");
    reveal_strlit("Terms-of-Service=");
    reveal_strlit("Terms-of-Service-VERSION=");
    reveal_strlit("Terms-of-Service-HASH=");
    reveal_strlit("Privacy-Policy=");
    reveal_strlit("Privacy-Policy-VERSION=");
    let l = PP_HASH_KEY@ + v;
    lemma_differs_at(l, EULA_KEY@, 0);
    lemma_differs_at(l, EULA_VERSION_KEY@, 0);
    lemma_differs_at(l, EULA_HASH_KEY@, 0);
    lemma_differs_at(l, TOS_KEY@, 0);
    lemma_differs_at(l, TOS_VERSION_KEY@, 0);
    lemma_differs_at(l, TOS_HASH_KEY@, 0);
    lemma_differs_at(l, PP_KEY@, 14);
    lemma_differs_at(l, PP_VERSION_KEY@, 15);
    assert(l.subrange(0, PP_HASH_KEY@.len() as int) =~= PP_HASH_KEY@);
    assert(after(l, PP_HASH_KEY) =~= v);
}

proof fn lemma_read_unix(f: ConsentFields, v: Seq<char>)
    ensures
        read_line(f, UNIX_KEY@ + v) == (ConsentFields { unix: v, ..f }),
{
    reveal_strlit("UNIX-SECOND=");
    reveal_strlit("EULA=");
    reveal_strlit("EULA-VERSION=");
    reveal_strlit("EULA-HASH=");
    reveal_strlit("Terms-of-Service=");
    reveal_strlit("Terms-of-Service-VERSION=");
    reveal_strlit("Terms-of-Service-HASH=");
    reveal_strlit("Privacy-Policy=");
    reveal_strlit("Privacy-Policy-VERSION=");
    reveal_strlit("Privacy-Policy-HASH=");
    let l = UNIX_KEY@ + v;
    lemma_differs_at(l, EULA_KEY@, 0);
    lemma_differs_at(l, EULA_VERSION_KEY@, 0);
    lemma_differs_at(l, EULA_HASH_KEY@, 0);
    lemma_differs_at(l, TOS_KEY@, 0);
    lemma_differs_at(l, TOS_VERSION_KEY@, 0);
    lemma_differs_at(l, TOS_HASH_KEY@, 0);
    lemma_differs_at(l, PP_KEY@, 0);
    lemma_differs_at(l, PP_VERSION_KEY@, 0);
    lemma_differs_at(l, PP_HASH_KEY@, 0);
    assert(l.subrange(0, UNIX_KEY@.len() as int) =~= UNIX_KEY@);
    assert(after(l, UNIX_KEY) =~= v);
}

proof fn lemma_read_f_eula_version(f: ConsentFields, v: Seq<char>)
    ensures
        read_line(f, FUTURE_EULA_VERSION_KEY@ + v) == (ConsentFields { f_eula_version: v, ..f }),
{
    reveal_strlit("FUTURE-EULA-VERSION=");
    reveal_strlit("EULA=");
    reveal_strlit("EULA-VERSION=");
    reveal_strlit("EULA-HASH=");
    reveal_strlit("Terms-of-Service=");
    reveal_strlit("Terms-of-Service-VERSION=");
    reveal_strlit("Terms-of-Service-HASH=");
    reveal_strlit("Privacy-Policy=");
    reveal_strlit("Privacy-Policy-VERSION=");
    reveal_strlit("Privacy-Policy-HASH=");
    reveal_strlit("UNIX-SECOND=");
    let l = FUTURE_EULA_VERSION_KEY@ + v;
    lemma_differs_at(l, EULA_KEY@, 0);
    lemma_differs_at(l, EULA_VERSION_KEY@, 0);
    lemma_differs_at(l, EULA_HASH_KEY@, 0);
    lemma_differs_at(l, TOS_KEY@, 0);
    lemma_differs_at(l, TOS_VERSION_KEY@, 0);
    lemma_differs_at(l, TOS_HASH_KEY@, 0);
    lemma_differs_at(l, PP_KEY@, 0);
    lemma_differs_at(l, PP_VERSION_KEY@, 0);
    lemma_differs_at(l, PP_HASH_KEY@, 0);
    lemma_differs_at(l, UNIX_KEY@, 0);
    assert(l.subrange(0, FUTURE_EULA_VERSION_KEY@.len() as int) =~= FUTURE_EULA_VERSION_KEY@);
    assert(after(l, FUTURE_EULA_VERSION_KEY) =~= v);
}

proof fn lemma_read_f_eula_hash(f: ConsentFields, v: Seq<char>)
    ensures
        read_line(f, FUTURE_EULA_HASH_KEY@ + v) == (ConsentFields { f_eula_hash: v, ..f }),
{
    reveal_strlit("FUTURE-EULA-HASH=");
    reveal_strlit("EULA=");
    reveal_strlit("EULA-VERSION=");
    reveal_strlit("EULA-HASH=");
    reveal_strlit("Terms-of-Service=");
    reveal_strlit("Terms-of-Service-VERSION=");
    reveal_strlit("Terms-of-Service-HASH=");
    reveal_strlit("Privacy-Policy=");
    reveal_strlit("Privacy-Policy-VERSION=");
    reveal_strlit("Privacy-Policy-HASH=");
    reveal_strlit("UNIX-SECOND=");
    reveal_strlit("FUTURE-EULA-VERSION=");
    let l = FUTURE_EULA_HASH_KEY@ + v;
    lemma_differs_at(l, EULA_KEY@, 0);
    lemma_differs_at(l, EULA_VERSION_KEY@, 0);
    lemma_differs_at(l, EULA_HASH_KEY@, 0);
    lemma_differs_at(l, TOS_KEY@, 0);
    lemma_differs_at(l, TOS_VERSION_KEY@, 0);
    lemma_differs_at(l, TOS_HASH_KEY@, 0);
    lemma_differs_at(l, PP_KEY@, 0);
    lemma_differs_at(l, PP_VERSION_KEY@, 0);
    lemma_differs_at(l, PP_HASH_KEY@, 0);
    lemma_differs_at(l, UNIX_KEY@, 0);
    lemma_differs_at(l, FUTURE_EULA_VERSION_KEY@, 12);
    assert(l.subrange(0, FUTURE_EULA_HASH_KEY@.len() as int) =~= FUTURE_EULA_HASH_KEY@);
    assert(after(l, FUTURE_EULA_HASH_KEY) =~= v);
}

proof fn lemma_read_f_eula_time(f: ConsentFields, v: Seq<char>)
    ensures
        read_line(f, FUTURE_EULA_TIME_KEY@ + v) == (ConsentFields { f_eula_time: v, ..f }),
{
    reveal_strlit("FUTURE-EULA-TIME=");
    reveal_strlit("EULA=");
    reveal_strlit("EULA-VERSION=");
    reveal_strlit("EULA-HASH=");
    reveal_strlit("Terms-of-Service=");
    reveal_strlit("Terms-of-Service-VERSION=");
    reveal_strlit("Terms-of-Service-HASH=");
    reveal_strlit("Privacy-Policy=");
    reveal_strlit("Privacy-Policy-VERSION=");
    reveal_strlit("Privacy-Policy-HASH=");
    reveal_strlit("UNIX-SECOND=");
    reveal_strlit("FUTURE-EULA-VERSION=");
    reveal_strlit("FUTURE-EULA-HASH=");
    let l = FUTURE_EULA_TIME_KEY@ + v;
    lemma_differs_at(l, EULA_KEY@, 0);
    lemma_differs_at(l, EULA_VERSION_KEY@, 0);
    lemma_differs_at(l, EULA_HASH_KEY@, 0);
    lemma_differs_at(l, TOS_KEY@, 0);
    lemma_differs_at(l, TOS_VERSION_KEY@, 0);
    lemma_differs_at(l, TOS_HASH_KEY@, 0);
    lemma_differs_at(l, PP_KEY@, 0);
    lemma_differs_at(l, PP_VERSION_KEY@, 0);
    lemma_differs_at(l, PP_HASH_KEY@, 0);
    lemma_differs_at(l, UNIX_KEY@, 0);
    lemma_differs_at(l, FUTURE_EULA_VERSION_KEY@, 12);
    lemma_differs_at(l, FUTURE_EULA_HASH_KEY@, 12);
    assert(l.subrange(0, FUTURE_EULA_TIME_KEY@.len() as int) =~= FUTURE_EULA_TIME_KEY@);
    assert(after(l, FUTURE_EULA_TIME_KEY) =~= v);
}

proof fn lemma_read_f_tos_version(f: ConsentFields, v: Seq<char>)
    ensures
        read_line(f, FUTURE_TOS_VERSION_KEY@ + v) == (ConsentFields { f_tos_version: v, ..f }),
{
    reveal_strlit("FUTURE-Terms-of-Service-VERSION=");
    reveal_strlit("EULA=");
    reveal_strlit("EULA-VERSION=");
    reveal_strlit("EULA-HASH=");
    reveal_strlit("Terms-of-Service=");
    reveal_strlit("Terms-of-Service-VERSION=");
    reveal_strlit("Terms-of-Service-HASH=");
    reveal_strlit("Privacy-Policy=");
    reveal_strlit("Privacy-Policy-VERSION=");
    reveal_strlit("Privacy-Policy-HASH=");
    reveal_strlit("UNIX-SECOND=");
    reveal_strlit("FUTURE-EULA-VERSION=");
    reveal_strlit("FUTURE-EULA-HASH=");
    reveal_strlit("FUTURE-EULA-TIME=");
    let l = FUTURE_TOS_VERSION_KEY@ + v;
    lemma_differs_at(l, EULA_KEY@, 0);
    lemma_differs_at(l, EULA_VERSION_KEY@, 0);
    lemma_differs_at(l, EULA_HASH_KEY@, 0);
    lemma_differs_at(l, TOS_KEY@, 0);
    lemma_differs_at(l, TOS_VERSION_KEY@, 0);
    lemma_differs_at(l, TOS_HASH_KEY@, 0);
    lemma_differs_at(l, PP_KEY@, 0);
    lemma_differs_at(l, PP_VERSION_KEY@, 0);
    lemma_differs_at(l, PP_HASH_KEY@, 0);
    lemma_differs_at(l, UNIX_KEY@, 0);
    lemma_differs_at(l, FUTURE_EULA_VERSION_KEY@, 7);
    lemma_differs_at(l, FUTURE_EULA_HASH_KEY@, 7);
    lemma_differs_at(l, FUTURE_EULA_TIME_KEY@, 7);
    assert(l.subrange(0, FUTURE_TOS_VERSION_KEY@.len() as int) =~= FUTURE_TOS_VERSION_KEY@);
    assert(after(l, FUTURE_TOS_VERSION_KEY) =~= v);
}

proof fn lemma_read_f_tos_hash(f: ConsentFields, v: Seq<char>)
    ensures
        read_line(f, FUTURE_TOS_HASH_KEY@ + v) == (ConsentFields { f_tos_hash: v, ..f }),
{
    reveal_strlit("FUTURE-Terms-of-Service-HASH=");
    reveal_strlit("EULA=");
    reveal_strlit("EULA-VERSION=");
    reveal_strlit("EULA-HASH=");
    reveal_strlit("Terms-of-Service=");
    reveal_strlit("Terms-of-Service-VERSION=");
    reveal_strlit("Terms-of-Service-HASH=");
    reveal_strlit("Privacy-Policy=");
    reveal_strlit("Privacy-Policy-VERSION=");
    reveal_strlit("Privacy-Policy-HASH=");
    reveal_strlit("UNIX-SECOND=");
    reveal_strlit("FUTURE-EULA-VERSION=");
    reveal_strlit("FUTURE-EULA-HASH=");
    reveal_strlit("FUTURE-EULA-TIME=");
    reveal_strlit("FUTURE-Terms-of-Service-VERSION=");
    let l = FUTURE_TOS_HASH_KEY@ + v;
    lemma_differs_at(l, EULA_KEY@, 0);
    lemma_differs_at(l, EULA_VERSION_KEY@, 0);
    lemma_differs_at(l, EULA_HASH_KEY@, 0);
    lemma_differs_at(l, TOS_KEY@, 0);
    lemma_differs_at(l, TOS_VERSION_KEY@, 0);
    lemma_differs_at(l, TOS_HASH_KEY@, 0);
    lemma_differs_at(l, PP_KEY@, 0);
    lemma_differs_at(l, PP_VERSION_KEY@, 0);
    lemma_differs_at(l, PP_HASH_KEY@, 0);
    lemma_differs_at(l, UNIX_KEY@, 0);
    lemma_differs_at(l, FUTURE_EULA_VERSION_KEY@, 7);
    lemma_differs_at(l, FUTURE_EULA_HASH_KEY@, 7);
    lemma_differs_at(l, FUTURE_EULA_TIME_KEY@, 7);
    lemma_differs_at(l, FUTURE_TOS_VERSION_KEY@, 24);
    assert(l.subrange(0, FUTURE_TOS_HASH_KEY@.len() as int) =~= FUTURE_TOS_HASH_KEY@);
    assert(after(l, FUTURE_TOS_HASH_KEY) =~= v);
}

proof fn lemma_read_f_tos_time(f: ConsentFields, v: Seq<char>)
    ensures
        read_line(f, FUTURE_TOS_TIME_KEY@ + v) == (ConsentFields { f_tos_time: v, ..f }),
{
    reveal_strlit("FUTURE-Terms-of-Service-TIME=");
    reveal_strlit("EULA=");
    reveal_strlit("EULA-VERSION=");
    reveal_strlit("EULA-HASH=");
    reveal_strlit("Terms-of-Service=");
    reveal_strlit("Terms-of-Service-VERSION=");
    reveal_strlit("Terms-of-Service-HASH=");
    reveal_strlit("Privacy-Policy=");
    reveal_strlit("Privacy-Policy-VERSION=");
    reveal_strlit("Privacy-Policy-HASH=");
    reveal_strlit("UNIX-SECOND=");
    reveal_strlit("FUTURE-EULA-VERSION=");
    reveal_strlit("FUTURE-EULA-HASH=");
    reveal_strlit("FUTURE-EULA-TIME=");
    reveal_strlit("FUTURE-Terms-of-Service-VERSION=");
    reveal_strlit("FUTURE-Terms-of-Service-HASH=");
    let l = FUTURE_TOS_TIME_KEY@ + v;
    lemma_differs_at(l, EULA_KEY@, 0);
    lemma_differs_at(l, EULA_VERSION_KEY@, 0);
    lemma_differs_at(l, EULA_HASH_KEY@, 0);
    lemma_differs_at(l, TOS_KEY@, 0);
    lemma_differs_at(l, TOS_VERSION_KEY@, 0);
    lemma_differs_at(l, TOS_HASH_KEY@, 0);
    lemma_differs_at(l, PP_KEY@, 0);
    lemma_differs_at(l, PP_VERSION_KEY@, 0);
    lemma_differs_at(l, PP_HASH_KEY@, 0);
    lemma_differs_at(l, UNIX_KEY@, 0);
    lemma_differs_at(l, FUTURE_EULA_VERSION_KEY@, 7);
    lemma_differs_at(l, FUTURE_EULA_HASH_KEY@, 7);
    lemma_differs_at(l, FUTURE_EULA_TIME_KEY@, 7);
    lemma_differs_at(l, FUTURE_TOS_VERSION_KEY@, 24);
    lemma_differs_at(l, FUTURE_TOS_HASH_KEY@, 24);
    assert(l.subrange(0, FUTURE_TOS_TIME_KEY@.len() as int) =~= FUTURE_TOS_TIME_KEY@);
    assert(after(l, FUTURE_TOS_TIME_KEY) =~= v);
}

proof fn lemma_read_f_pp_version(f: ConsentFields, v: Seq<char>)
    ensures
        read_line(f, FUTURE_PP_VERSION_KEY@ + v) == (ConsentFields { f_pp_version: v, ..f }),
{
    reveal_strlit("FUTURE-Privacy-Policy-VERSION=");
    reveal_strlit("EULA=");
    reveal_strlit("EULA-VERSION=");
    reveal_strlit("EULA-HASH=");
    reveal_strlit("Terms-of-Service=");
    reveal_strlit("Terms-of-Service-VERSION=");
    reveal_strlit("Terms-of-Service-HASH=");
    reveal_strlit("Privacy-Policy=");
    reveal_strlit("Privacy-Policy-VERSION=");
    reveal_strlit("Privacy-Policy-HASH=");
    reveal_strlit("UNIX-SECOND=");
    reveal_strlit("FUTURE-EULA-VERSION=");
    reveal_strlit("FUTURE-EULA-HASH=");
    reveal_strlit("FUTURE-EULA-TIME=");
    reveal_strlit("FUTURE-Terms-of-Service-VERSION=");
    reveal_strlit("FUTURE-Terms-of-Service-HASH=");
    reveal_strlit("FUTURE-Terms-of-Service-TIME=");
    let l = FUTURE_PP_VERSION_KEY@ + v;
    lemma_differs_at(l, EULA_KEY@, 0);
    lemma_differs_at(l, EULA_VERSION_KEY@, 0);
    lemma_differs_at(l, EULA_HASH_KEY@, 0);
    lemma_differs_at(l, TOS_KEY@, 0);
    lemma_differs_at(l, TOS_VERSION_KEY@, 0);
    lemma_differs_at(l, TOS_HASH_KEY@, 0);
    lemma_differs_at(l, PP_KEY@, 0);
    lemma_differs_at(l, PP_VERSION_KEY@, 0);
    lemma_differs_at(l, PP_HASH_KEY@, 0);
    lemma_differs_at(l, UNIX_KEY@, 0);
    lemma_differs_at(l, FUTURE_EULA_VERSION_KEY@, 7);
    lemma_differs_at(l, FUTURE_EULA_HASH_KEY@, 7);
    lemma_differs_at(l, FUTURE_EULA_TIME_KEY@, 7);
    lemma_differs_at(l, FUTURE_TOS_VERSION_KEY@, 7);
    lemma_differs_at(l, FUTURE_TOS_HASH_KEY@, 7);
    lemma_differs_at(l, FUTURE_TOS_TIME_KEY@, 7);
    assert(l.subrange(0, FUTURE_PP_VERSION_KEY@.len() as int) =~= FUTURE_PP_VERSION_KEY@);
    assert(after(l, FUTURE_PP_VERSION_KEY) =~= v);
}

proof fn lemma_read_f_pp_hash(f: ConsentFields, v: Seq<char>)
    ensures
        read_line(f, FUTURE_PP_HASH_KEY@ + v) == (ConsentFields { f_pp_hash: v, ..f }),
{
    reveal_strlit("FUTURE-Privacy-Policy-HASH=");
    reveal_strlit("EULA=");
    reveal_strlit("EULA-VERSION=");
    reveal_strlit("EULA-HASH=");
    reveal_strlit("Terms-of-Service=");
    reveal_strlit("Terms-of-Service-VERSION=");
    reveal_strlit("Terms-of-Service-HASH=");
    reveal_strlit("Privacy-Policy=");
    reveal_strlit("Privacy-Policy-VERSION=");
    reveal_strlit("Privacy-Policy-HASH=");
    reveal_strlit("UNIX-SECOND=");
    reveal_strlit("FUTURE-EULA-VERSION=");
    reveal_strlit("FUTURE-EULA-HASH=");
    reveal_strlit("FUTURE-EULA-TIME=");
    reveal_strlit("FUTURE-Terms-of-Service-VERSION=");
    reveal_strlit("FUTURE-Terms-of-Service-HASH=");
    reveal_strlit("FUTURE-Terms-of-Service-TIME=");
    reveal_strlit("FUTURE-Privacy-Policy-VERSION=");
    let l = FUTURE_PP_HASH_KEY@ + v;
    lemma_differs_at(l, EULA_KEY@, 0);
    lemma_differs_at(l, EULA_VERSION_KEY@, 0);
    lemma_differs_at(l, EULA_HASH_KEY@, 0);
    lemma_differs_at(l, TOS_KEY@, 0);
    lemma_differs_at(l, TOS_VERSION_KEY@, 0);
    lemma_differs_at(l, TOS_HASH_KEY@, 0);
    lemma_differs_at(l, PP_KEY@, 0);
    lemma_differs_at(l, PP_VERSION_KEY@, 0);
    lemma_differs_at(l, PP_HASH_KEY@, 0);
    lemma_differs_at(l, UNIX_KEY@, 0);
    lemma_differs_at(l, FUTURE_EULA_VERSION_KEY@, 7);
    lemma_differs_at(l, FUTURE_EULA_HASH_KEY@, 7);
    lemma_differs_at(l, FUTURE_EULA_TIME_KEY@, 7);
    lemma_differs_at(l, FUTURE_TOS_VERSION_KEY@, 7);
    lemma_differs_at(l, FUTURE_TOS_HASH_KEY@, 7);
    lemma_differs_at(l, FUTURE_TOS_TIME_KEY@, 7);
    lemma_differs_at(l, FUTURE_PP_VERSION_KEY@, 22);
    assert(l.subrange(0, FUTURE_PP_HASH_KEY@.len() as int) =~= FUTURE_PP_HASH_KEY@);
    assert(after(l, FUTURE_PP_HASH_KEY) =~= v);
}

proof fn lemma_read_f_pp_time(f: ConsentFields, v: Seq<char>)
    ensures
        read_line(f, FUTURE_PP_TIME_KEY@ + v) == (ConsentFields { f_pp_time: v, ..f }),
{
    reveal_strlit("FUTURE-Privacy-Policy-TIME=");
    reveal_strlit("EULA=");
    reveal_strlit("EULA-VERSION=");
    reveal_strlit("EULA-HASH=");
    reveal_strlit("Terms-of-Service=");
    reveal_strlit("Terms-of-Service-VERSION=");
    reveal_strlit("Terms-of-Service-HASH=");
    reveal_strlit("Privacy-Policy=");
    reveal_strlit("Privacy-Policy-VERSION=");
    reveal_strlit("Privacy-Policy-HASH=");
    reveal_strlit("UNIX-SECOND=");
    reveal_strlit("FUTURE-EULA-VERSION=");
    reveal_strlit("FUTURE-EULA-HASH=");
    reveal_strlit("FUTURE-EULA-TIME=");
    reveal_strlit("FUTURE-Terms-of-Service-VERSION=");
    reveal_strlit("FUTURE-Terms-of-Service-HASH=");
    reveal_strlit("FUTURE-Terms-of-Service-TIME=");
    reveal_strlit("FUTURE-Privacy-Policy-VERSION=");
    reveal_strlit("FUTURE-Privacy-Policy-HASH=");
    let l = FUTURE_PP_TIME_KEY@ + v;
    lemma_differs_at(l, EULA_KEY@, 0);
    lemma_differs_at(l, EULA_VERSION_KEY@, 0);
    lemma_differs_at(l, EULA_HASH_KEY@, 0);
    lemma_differs_at(l, TOS_KEY@, 0);
    lemma_differs_at(l, TOS_VERSION_KEY@, 0);
    lemma_differs_at(l, TOS_HASH_KEY@, 0);
    lemma_differs_at(l, PP_KEY@, 0);
    lemma_differs_at(l, PP_VERSION_KEY@, 0);
    lemma_differs_at(l, PP_HASH_KEY@, 0);
    lemma_differs_at(l, UNIX_KEY@, 0);
    lemma_differs_at(l, FUTURE_EULA_VERSION_KEY@, 7);
    lemma_differs_at(l, FUTURE_EULA_HASH_KEY@, 7);
    lemma_differs_at(l, FUTURE_EULA_TIME_KEY@, 7);
    lemma_differs_at(l, FUTURE_TOS_VERSION_KEY@, 7);
    lemma_differs_at(l, FUTURE_TOS_HASH_KEY@, 7);
    lemma_differs_at(l, FUTURE_TOS_TIME_KEY@, 7);
    lemma_differs_at(l, FUTURE_PP_VERSION_KEY@, 22);
    lemma_differs_at(l, FUTURE_PP_HASH_KEY@, 22);
    assert(l.subrange(0, FUTURE_PP_TIME_KEY@.len() as int) =~= FUTURE_PP_TIME_KEY@);
    assert(after(l, FUTURE_PP_TIME_KEY) =~= v);
}

proof fn lemma_read_header_line_1(f: ConsentFields)
    ensures
        read_line(f, HEADER_LINE_1@) == f,
{
    reveal_strlit("This file reflects the current consent state used by the application.");
    reveal_strlit("EULA=");
    reveal_strlit("EULA-VERSION=");
    reveal_strlit("EULA-HASH=");
    reveal_strlit("Terms-of-Service=");
    reveal_strlit("Terms-of-Service-VERSION=");
    reveal_strlit("Terms-of-Service-HASH=");
    reveal_strlit("Privacy-Policy=");
    reveal_strlit("Privacy-Policy-VERSION=");
    reveal_strlit("Privacy-Policy-HASH=");
    reveal_strlit("UNIX-SECOND=");
    reveal_strlit("FUTURE-EULA-VERSION=");
    reveal_strlit("FUTURE-EULA-HASH=");
    reveal_strlit("FUTURE-EULA-TIME=");
    reveal_strlit("FUTURE-Terms-of-Service-VERSION=");
    reveal_strlit("FUTURE-Terms-of-Service-HASH=");
    reveal_strlit("FUTURE-Terms-of-Service-TIME=");
    reveal_strlit("FUTURE-Privacy-Policy-VERSION=");
    reveal_strlit("FUTURE-Privacy-Policy-HASH=");
    reveal_strlit("FUTURE-Privacy-Policy-TIME=");
    lemma_differs_at(HEADER_LINE_1@, EULA_KEY@, 0);
    lemma_differs_at(HEADER_LINE_1@, EULA_VERSION_KEY@, 0);
    lemma_differs_at(HEADER_LINE_1@, EULA_HASH_KEY@, 0);
    lemma_differs_at(HEADER_LINE_1@, TOS_KEY@, 1);
    lemma_differs_at(HEADER_LINE_1@, TOS_VERSION_KEY@, 1);
    lemma_differs_at(HEADER_LINE_1@, TOS_HASH_KEY@, 1);
    lemma_differs_at(HEADER_LINE_1@, PP_KEY@, 0);
    lemma_differs_at(HEADER_LINE_1@, PP_VERSION_KEY@, 0);
    lemma_differs_at(HEADER_LINE_1@, PP_HASH_KEY@, 0);
    lemma_differs_at(HEADER_LINE_1@, UNIX_KEY@, 0);
    lemma_differs_at(HEADER_LINE_1@, FUTURE_EULA_VERSION_KEY@, 0);
    lemma_differs_at(HEADER_LINE_1@, FUTURE_EULA_HASH_KEY@, 0);
    lemma_differs_at(HEADER_LINE_1@, FUTURE_EULA_TIME_KEY@, 0);
    lemma_differs_at(HEADER_LINE_1@, FUTURE_TOS_VERSION_KEY@, 0);
    lemma_differs_at(HEADER_LINE_1@, FUTURE_TOS_HASH_KEY@, 0);
    lemma_differs_at(HEADER_LINE_1@, FUTURE_TOS_TIME_KEY@, 0);
    lemma_differs_at(HEADER_LINE_1@, FUTURE_PP_VERSION_KEY@, 0);
    lemma_differs_at(HEADER_LINE_1@, FUTURE_PP_HASH_KEY@, 0);
    lemma_differs_at(HEADER_LINE_1@, FUTURE_PP_TIME_KEY@, 0);
}

proof fn lemma_header_line_1_ok()
    ensures
        line_ok(HEADER_LINE_1@),
{
    reveal_strlit("This file reflects the current consent state used by the application.");
}

proof fn lemma_read_header_line_2(f: ConsentFields)
    ensures
        read_line(f, HEADER_LINE_2@) == f,
{
    reveal_strlit("It may be regenerated or overwritten by the application.");
    reveal_strlit("EULA=");
    reveal_strlit("EULA-VERSION=");
    reveal_strlit("EULA-HASH=");
    reveal_strlit("Terms-of-Service=");
    reveal_strlit("Terms-of-Service-VERSION=");
    reveal_strlit("Terms-of-Service-HASH=");
    reveal_strlit("Privacy-Policy=");
    reveal_strlit("Privacy-Policy-VERSION=");
    reveal_strlit("Privacy-Policy-HASH=");
    reveal_strlit("UNIX-SECOND=");
    reveal_strlit("FUTURE-EULA-VERSION=");
    reveal_strlit("FUTURE-EULA-HASH=");
    reveal_strlit("FUTURE-EULA-TIME=");
    reveal_strlit("FUTURE-Terms-of-Service-VERSION=");
    reveal_strlit("FUTURE-Terms-of-Service-HASH=");
    reveal_strlit("FUTURE-Terms-of-Service-TIME=");
    reveal_strlit("FUTURE-Privacy-Policy-VERSION=");
    reveal_strlit("FUTURE-Privacy-Policy-HASH=");
    reveal_strlit("FUTURE-Privacy-Policy-TIME=");
    lemma_differs_at(HEADER_LINE_2@, EULA_KEY@, 0);
    lemma_differs_at(HEADER_LINE_2@, EULA_VERSION_KEY@, 0);
    lemma_differs_at(HEADER_LINE_2@, EULA_HASH_KEY@, 0);
    lemma_differs_at(HEADER_LINE_2@, TOS_KEY@, 0);
    lemma_differs_at(HEADER_LINE_2@, TOS_VERSION_KEY@, 0);
    lemma_differs_at(HEADER_LINE_2@, TOS_HASH_KEY@, 0);
    lemma_differs_at(HEADER_LINE_2@, PP_KEY@, 0);
    lemma_differs_at(HEADER_LINE_2@, PP_VERSION_KEY@, 0);
    lemma_differs_at(HEADER_LINE_2@, PP_HASH_KEY@, 0);
    lemma_differs_at(HEADER_LINE_2@, UNIX_KEY@, 0);
    lemma_differs_at(HEADER_LINE_2@, FUTURE_EULA_VERSION_KEY@, 0);
    lemma_differs_at(HEADER_LINE_2@, FUTURE_EULA_HASH_KEY@, 0);
    lemma_differs_at(HEADER_LINE_2@, FUTURE_EULA_TIME_KEY@, 0);
    lemma_differs_at(HEADER_LINE_2@, FUTURE_TOS_VERSION_KEY@, 0);
    lemma_differs_at(HEADER_LINE_2@, FUTURE_TOS_HASH_KEY@, 0);
    lemma_differs_at(HEADER_LINE_2@, FUTURE_TOS_TIME_KEY@, 0);
    lemma_differs_at(HEADER_LINE_2@, FUTURE_PP_VERSION_KEY@, 0);
    lemma_differs_at(HEADER_LINE_2@, FUTURE_PP_HASH_KEY@, 0);
    lemma_differs_at(HEADER_LINE_2@, FUTURE_PP_TIME_KEY@, 0);
}

proof fn lemma_header_line_2_ok()
    ensures
        line_ok(HEADER_LINE_2@),
{
    reveal_strlit("It may be regenerated or overwritten by the application.");
}

proof fn lemma_read_header_line_3(f: ConsentFields)
    ensures
        read_line(f, HEADER_LINE_3@) == f,
{
    reveal_strlit("This file was last edited by Tensamin at:");
    reveal_strlit("EULA=");
    reveal_strlit("EULA-VERSION=");
    reveal_strlit("EULA-HASH=");
    reveal_strlit("Terms-of-Service=");
    reveal_strlit("Terms-of-Service-VERSION=");
    reveal_strlit("Terms-of-Service-HASH=");
    reveal_strlit("Privacy-Policy=");
    reveal_strlit("Privacy-Policy-VERSION=");
    reveal_strlit("Privacy-Policy-HASH=");
    reveal_strlit("UNIX-SECOND=");
    reveal_strlit("FUTURE-EULA-VERSION=");
    reveal_strlit("FUTURE-EULA-HASH=");
    reveal_strlit("FUTURE-EULA-TIME=");
    reveal_strlit("FUTURE-Terms-of-Service-VERSION=");
    reveal_strlit("FUTURE-Terms-of-Service-HASH=");
    reveal_strlit("FUTURE-Terms-of-Service-TIME=");
    reveal_strlit("FUTURE-Privacy-Policy-VERSION=");
    reveal_strlit("FUTURE-Privacy-Policy-HASH=");
    reveal_strlit("FUTURE-Privacy-Policy-TIME=");
    lemma_differs_at(HEADER_LINE_3@, EULA_KEY@, 0);
    lemma_differs_at(HEADER_LINE_3@, EULA_VERSION_KEY@, 0);
    lemma_differs_at(HEADER_LINE_3@, EULA_HASH_KEY@, 0);
    lemma_differs_at(HEADER_LINE_3@, TOS_KEY@, 1);
    lemma_differs_at(HEADER_LINE_3@, TOS_VERSION_KEY@, 1);
    lemma_differs_at(HEADER_LINE_3@, TOS_HASH_KEY@, 1);
    lemma_differs_at(HEADER_LINE_3@, PP_KEY@, 0);
    lemma_differs_at(HEADER_LINE_3@, PP_VERSION_KEY@, 0);
    lemma_differs_at(HEADER_LINE_3@, PP_HASH_KEY@, 0);
    lemma_differs_at(HEADER_LINE_3@, UNIX_KEY@, 0);
    lemma_differs_at(HEADER_LINE_3@, FUTURE_EULA_VERSION_KEY@, 0);
    lemma_differs_at(HEADER_LINE_3@, FUTURE_EULA_HASH_KEY@, 0);
    lemma_differs_at(HEADER_LINE_3@, FUTURE_EULA_TIME_KEY@, 0);
    lemma_differs_at(HEADER_LINE_3@, FUTURE_TOS_VERSION_KEY@, 0);
    lemma_differs_at(HEADER_LINE_3@, FUTURE_TOS_HASH_KEY@, 0);
    lemma_differs_at(HEADER_LINE_3@, FUTURE_TOS_TIME_KEY@, 0);
    lemma_differs_at(HEADER_LINE_3@, FUTURE_PP_VERSION_KEY@, 0);
    lemma_differs_at(HEADER_LINE_3@, FUTURE_PP_HASH_KEY@, 0);
    lemma_differs_at(HEADER_LINE_3@, FUTURE_PP_TIME_KEY@, 0);
}

proof fn lemma_header_line_3_ok()
    ensures
        line_ok(HEADER_LINE_3@),
{
    reveal_strlit("This file was last edited by Tensamin at:");
}

proof fn lemma_read_eula_line(f: ConsentFields)
    ensures
        read_line(f, EULA_LINE@) == f,
{
    reveal_strlit("\"EULA=true\" indicates that you read, understood and accepted Tensamin's End User Licence agreement. You can find our EULA at https://legal.tensamin.net/eula/");
    reveal_strlit("EULA=");
    reveal_strlit("EULA-VERSION=");
    reveal_strlit("EULA-HASH=");
    reveal_strlit("Terms-of-Service=");
    reveal_strlit("Terms-of-Service-VERSION=");
    reveal_strlit("Terms-of-Service-HASH=");
    reveal_strlit("Privacy-Policy=");
    reveal_strlit("Privacy-Policy-VERSION=");
    reveal_strlit("Privacy-Policy-HASH=");
    reveal_strlit("UNIX-SECOND=");
    reveal_strlit("FUTURE-EULA-VERSION=");
    reveal_strlit("FUTURE-EULA-HASH=");
    reveal_strlit("FUTURE-EULA-TIME=");
    reveal_strlit("FUTURE-Terms-of-Service-VERSION=");
    reveal_strlit("FUTURE-Terms-of-Service-HASH=");
    reveal_strlit("FUTURE-Terms-of-Service-TIME=");
    reveal_strlit("FUTURE-Privacy-Policy-VERSION=");
    reveal_strlit("FUTURE-Privacy-Policy-HASH=");
    reveal_strlit("FUTURE-Privacy-Policy-TIME=");
    lemma_differs_at(EULA_LINE@, EULA_KEY@, 0);
    lemma_differs_at(EULA_LINE@, EULA_VERSION_KEY@, 0);
    lemma_differs_at(EULA_LINE@, EULA_HASH_KEY@, 0);
    lemma_differs_at(EULA_LINE@, TOS_KEY@, 0);
    lemma_differs_at(EULA_LINE@, TOS_VERSION_KEY@, 0);
    lemma_differs_at(EULA_LINE@, TOS_HASH_KEY@, 0);
    lemma_differs_at(EULA_LINE@, PP_KEY@, 0);
    lemma_differs_at(EULA_LINE@, PP_VERSION_KEY@, 0);
    lemma_differs_at(EULA_LINE@, PP_HASH_KEY@, 0);
    lemma_differs_at(EULA_LINE@, UNIX_KEY@, 0);
    lemma_differs_at(EULA_LINE@, FUTURE_EULA_VERSION_KEY@, 0);
    lemma_differs_at(EULA_LINE@, FUTURE_EULA_HASH_KEY@, 0);
    lemma_differs_at(EULA_LINE@, FUTURE_EULA_TIME_KEY@, 0);
    lemma_differs_at(EULA_LINE@, FUTURE_TOS_VERSION_KEY@, 0);
    lemma_differs_at(EULA_LINE@, FUTURE_TOS_HASH_KEY@, 0);
    lemma_differs_at(EULA_LINE@, FUTURE_TOS_TIME_KEY@, 0);
    lemma_differs_at(EULA_LINE@, FUTURE_PP_VERSION_KEY@, 0);
    lemma_differs_at(EULA_LINE@, FUTURE_PP_HASH_KEY@, 0);
    lemma_differs_at(EULA_LINE@, FUTURE_PP_TIME_KEY@, 0);
}

proof fn lemma_eula_line_ok()
    ensures
        line_ok(EULA_LINE@),
{
    reveal_strlit("\"EULA=true\" indicates that you read, understood and accepted Tensamin's End User Licence agreement. You can find our EULA at https://legal.tensamin.net/eula/");
}

proof fn lemma_read_tos_line(f: ConsentFields)
    ensures
        read_line(f, TOS_LINE@) == f,
{
    reveal_strlit("\"Terms-of-Service=true\" indicates that you read, understood and accepted Tensamin's Terms of Service. You can find our Terms of Serivce at https://legal.tensamin.net/tos/");
    reveal_strlit("EULA=");
    reveal_strlit("EULA-VERSION=");
    reveal_strlit("EULA-HASH=");
    reveal_strlit("Terms-of-Service=");
    reveal_strlit("Terms-of-Service-VERSION=");
    reveal_strlit("Terms-of-Service-HASH=");
    reveal_strlit("Privacy-Policy=");
    reveal_strlit("Privacy-Policy-VERSION=");
    reveal_strlit("Privacy-Policy-HASH=");
    reveal_strlit("UNIX-SECOND=");
    reveal_strlit("FUTURE-EULA-VERSION=");
    reveal_strlit("FUTURE-EULA-HASH=");
    reveal_strlit("FUTURE-EULA-TIME=");
    reveal_strlit("FUTURE-Terms-of-Service-VERSION=");
    reveal_strlit("FUTURE-Terms-of-Service-HASH=");
    reveal_strlit("FUTURE-Terms-of-Service-TIME=");
    reveal_strlit("FUTURE-Privacy-Policy-VERSION=");
    reveal_strlit("FUTURE-Privacy-Policy-HASH=");
    reveal_strlit("FUTURE-Privacy-Policy-TIME=");
    lemma_differs_at(TOS_LINE@, EULA_KEY@, 0);
    lemma_differs_at(TOS_LINE@, EULA_VERSION_KEY@, 0);
    lemma_differs_at(TOS_LINE@, EULA_HASH_KEY@, 0);
    lemma_differs_at(TOS_LINE@, TOS_KEY@, 0);
    lemma_differs_at(TOS_LINE@, TOS_VERSION_KEY@, 0);
    lemma_differs_at(TOS_LINE@, TOS_HASH_KEY@, 0);
    lemma_differs_at(TOS_LINE@, PP_KEY@, 0);
    lemma_differs_at(TOS_LINE@, PP_VERSION_KEY@, 0);
    lemma_differs_at(TOS_LINE@, PP_HASH_KEY@, 0);
    lemma_differs_at(TOS_LINE@, UNIX_KEY@, 0);
    lemma_differs_at(TOS_LINE@, FUTURE_EULA_VERSION_KEY@, 0);
    lemma_differs_at(TOS_LINE@, FUTURE_EULA_HASH_KEY@, 0);
    lemma_differs_at(TOS_LINE@, FUTURE_EULA_TIME_KEY@, 0);
    lemma_differs_at(TOS_LINE@, FUTURE_TOS_VERSION_KEY@, 0);
    lemma_differs_at(TOS_LINE@, FUTURE_TOS_HASH_KEY@, 0);
    lemma_differs_at(TOS_LINE@, FUTURE_TOS_TIME_KEY@, 0);
    lemma_differs_at(TOS_LINE@, FUTURE_PP_VERSION_KEY@, 0);
    lemma_differs_at(TOS_LINE@, FUTURE_PP_HASH_KEY@, 0);
    lemma_differs_at(TOS_LINE@, FUTURE_PP_TIME_KEY@, 0);
}

proof fn lemma_tos_line_ok()
    ensures
        line_ok(TOS_LINE@),
{
    reveal_strlit("\"Terms-of-Service=true\" indicates that you read, understood and accepted Tensamin's Terms of Service. You can find our Terms of Serivce at https://legal.tensamin.net/tos/");
}

proof fn lemma_read_pp_line(f: ConsentFields)
    ensures
        read_line(f, PP_LINE@) == f,
{
    reveal_strlit("\"Privacy-Policy=true\" indicates that you read, understood and accepted Tensamin's Privacy Policy. You can find our Privacy Policy at https://legal.tensamin.net/privacy/");
    reveal_strlit("EULA=");
    reveal_strlit("EULA-VERSION=");
    reveal_strlit("EULA-HASH=");
    reveal_strlit("Terms-of-Service=");
    reveal_strlit("Terms-of-Service-VERSION=");
    reveal_strlit("Terms-of-Service-HASH=");
    reveal_strlit("Privacy-Policy=");
    reveal_strlit("Privacy-Policy-VERSION=");
    reveal_strlit("Privacy-Policy-HASH=");
    reveal_strlit("UNIX-SECOND=");
    reveal_strlit("FUTURE-EULA-VERSION=");
    reveal_strlit("FUTURE-EULA-HASH=");
    reveal_strlit("FUTURE-EULA-TIME=");
    reveal_strlit("FUTURE-Terms-of-Service-VERSION=");
    reveal_strlit("FUTURE-Terms-of-Service-HASH=");
    reveal_strlit("FUTURE-Terms-of-Service-TIME=");
    reveal_strlit("FUTURE-Privacy-Policy-VERSION=");
    reveal_strlit("FUTURE-Privacy-Policy-HASH=");
    reveal_strlit("FUTURE-Privacy-Policy-TIME=");
    lemma_differs_at(PP_LINE@, EULA_KEY@, 0);
    lemma_differs_at(PP_LINE@, EULA_VERSION_KEY@, 0);
    lemma_differs_at(PP_LINE@, EULA_HASH_KEY@, 0);
    lemma_differs_at(PP_LINE@, TOS_KEY@, 0);
    lemma_differs_at(PP_LINE@, TOS_VERSION_KEY@, 0);
    lemma_differs_at(PP_LINE@, TOS_HASH_KEY@, 0);
    lemma_differs_at(PP_LINE@, PP_KEY@, 0);
    lemma_differs_at(PP_LINE@, PP_VERSION_KEY@, 0);
    lemma_differs_at(PP_LINE@, PP_HASH_KEY@, 0);
    lemma_differs_at(PP_LINE@, UNIX_KEY@, 0);
    lemma_differs_at(PP_LINE@, FUTURE_EULA_VERSION_KEY@, 0);
    lemma_differs_at(PP_LINE@, FUTURE_EULA_HASH_KEY@, 0);
    lemma_differs_at(PP_LINE@, FUTURE_EULA_TIME_KEY@, 0);
    lemma_differs_at(PP_LINE@, FUTURE_TOS_VERSION_KEY@, 0);
    lemma_differs_at(PP_LINE@, FUTURE_TOS_HASH_KEY@, 0);
    lemma_differs_at(PP_LINE@, FUTURE_TOS_TIME_KEY@, 0);
    lemma_differs_at(PP_LINE@, FUTURE_PP_VERSION_KEY@, 0);
    lemma_differs_at(PP_LINE@, FUTURE_PP_HASH_KEY@, 0);
    lemma_differs_at(PP_LINE@, FUTURE_PP_TIME_KEY@, 0);
}

proof fn lemma_pp_line_ok()
    ensures
        line_ok(PP_LINE@),
{
    reveal_strlit("\"Privacy-Policy=true\" indicates that you read, understood and accepted Tensamin's Privacy Policy. You can find our Privacy Policy at https://legal.tensamin.net/privacy/");
}

proof fn lemma_read_no_eula_line(f: ConsentFields)
    ensures
        read_line(f, NO_EULA_LINE@) == f,
{
    reveal_strlit("\"EULA=true\" indicates that you read, understood and accepted Tensamin's End User Licence Agreement. You can find Tensamin's EULA at https://legal.tensamin.net/eula/");
    reveal_strlit("EULA=");
    reveal_strlit("EULA-VERSION=");
    reveal_strlit("EULA-HASH=");
    reveal_strlit("Terms-of-Service=");
    reveal_strlit("Terms-of-Service-VERSION=");
    reveal_strlit("Terms-of-Service-HASH=");
    reveal_strlit("Privacy-Policy=");
    reveal_strlit("Privacy-Policy-VERSION=");
    reveal_strlit("Privacy-Policy-HASH=");
    reveal_strlit("UNIX-SECOND=");
    reveal_strlit("FUTURE-EULA-VERSION=");
    reveal_strlit("FUTURE-EULA-HASH=");
    reveal_strlit("FUTURE-EULA-TIME=");
    reveal_strlit("FUTURE-Terms-of-Service-VERSION=");
    reveal_strlit("FUTURE-Terms-of-Service-HASH=");
    reveal_strlit("FUTURE-Terms-of-Service-TIME=");
    reveal_strlit("FUTURE-Privacy-Policy-VERSION=");
    reveal_strlit("FUTURE-Privacy-Policy-HASH=");
    reveal_strlit("FUTURE-Privacy-Policy-TIME=");
    lemma_differs_at(NO_EULA_LINE@, EULA_KEY@, 0);
    lemma_differs_at(NO_EULA_LINE@, EULA_VERSION_KEY@, 0);
    lemma_differs_at(NO_EULA_LINE@, EULA_HASH_KEY@, 0);
    lemma_differs_at(NO_EULA_LINE@, TOS_KEY@, 0);
    lemma_differs_at(NO_EULA_LINE@, TOS_VERSION_KEY@, 0);
    lemma_differs_at(NO_EULA_LINE@, TOS_HASH_KEY@, 0);
    lemma_differs_at(NO_EULA_LINE@, PP_KEY@, 0);
    lemma_differs_at(NO_EULA_LINE@, PP_VERSION_KEY@, 0);
    lemma_differs_at(NO_EULA_LINE@, PP_HASH_KEY@, 0);
    lemma_differs_at(NO_EULA_LINE@, UNIX_KEY@, 0);
    lemma_differs_at(NO_EULA_LINE@, FUTURE_EULA_VERSION_KEY@, 0);
    lemma_differs_at(NO_EULA_LINE@, FUTURE_EULA_HASH_KEY@, 0);
    lemma_differs_at(NO_EULA_LINE@, FUTURE_EULA_TIME_KEY@, 0);
    lemma_differs_at(NO_EULA_LINE@, FUTURE_TOS_VERSION_KEY@, 0);
    lemma_differs_at(NO_EULA_LINE@, FUTURE_TOS_HASH_KEY@, 0);
    lemma_differs_at(NO_EULA_LINE@, FUTURE_TOS_TIME_KEY@, 0);
    lemma_differs_at(NO_EULA_LINE@, FUTURE_PP_VERSION_KEY@, 0);
    lemma_differs_at(NO_EULA_LINE@, FUTURE_PP_HASH_KEY@, 0);
    lemma_differs_at(NO_EULA_LINE@, FUTURE_PP_TIME_KEY@, 0);
}

proof fn lemma_no_eula_line_ok()
    ensures
        line_ok(NO_EULA_LINE@),
{
    reveal_strlit("\"EULA=true\" indicates that you read, understood and accepted Tensamin's End User Licence Agreement. You can find Tensamin's EULA at https://legal.tensamin.net/eula/");
}

proof fn lemma_eula_key_ok()
    ensures
        line_ok(EULA_KEY@),
{
    reveal_strlit("EULA=");
}

proof fn lemma_eula_version_key_ok()
    ensures
        line_ok(EULA_VERSION_KEY@),
{
    reveal_strlit("EULA-VERSION=");
}

proof fn lemma_eula_hash_key_ok()
    ensures
        line_ok(EULA_HASH_KEY@),
{
    reveal_strlit("EULA-HASH=");
}

proof fn lemma_tos_key_ok()
    ensures
        line_ok(TOS_KEY@),
{
    reveal_strlit("Terms-of-Service=");
}

proof fn lemma_tos_version_key_ok()
    ensures
        line_ok(TOS_VERSION_KEY@),
{
    reveal_strlit("Terms-of-Service-VERSION=");
}

proof fn lemma_tos_hash_key_ok()
    ensures
        line_ok(TOS_HASH_KEY@),
{
    reveal_strlit("Terms-of-Service-HASH=");
}

proof fn lemma_pp_key_ok()
    ensures
        line_ok(PP_KEY@),
{
    reveal_strlit("Privacy-Policy=");
}

proof fn lemma_pp_version_key_ok()
    ensures
        line_ok(PP_VERSION_KEY@),
{
    reveal_strlit("Privacy-Policy-VERSION=");
}

proof fn lemma_pp_hash_key_ok()
    ensures
        line_ok(PP_HASH_KEY@),
{
    reveal_strlit("Privacy-Policy-HASH=");
}

proof fn lemma_unix_key_ok()
    ensures
        line_ok(UNIX_KEY@),
{
    reveal_strlit("UNIX-SECOND=");
}

proof fn lemma_f_eula_version_key_ok()
    ensures
        line_ok(FUTURE_EULA_VERSION_KEY@),
{
    reveal_strlit("FUTURE-EULA-VERSION=");
}

proof fn lemma_f_eula_hash_key_ok()
    ensures
        line_ok(FUTURE_EULA_HASH_KEY@),
{
    reveal_strlit("FUTURE-EULA-HASH=");
}

proof fn lemma_f_eula_time_key_ok()
    ensures
        line_ok(FUTURE_EULA_TIME_KEY@),
{
    reveal_strlit("FUTURE-EULA-TIME=");
}

proof fn lemma_f_tos_version_key_ok()
    ensures
        line_ok(FUTURE_TOS_VERSION_KEY@),
{
    reveal_strlit("FUTURE-Terms-of-Service-VERSION=");
}

proof fn lemma_f_tos_hash_key_ok()
    ensures
        line_ok(FUTURE_TOS_HASH_KEY@),
{
    reveal_strlit("FUTURE-Terms-of-Service-HASH=");
}

proof fn lemma_f_tos_time_key_ok()
    ensures
        line_ok(FUTURE_TOS_TIME_KEY@),
{
    reveal_strlit("FUTURE-Terms-of-Service-TIME=");
}

proof fn lemma_f_pp_version_key_ok()
    ensures
        line_ok(FUTURE_PP_VERSION_KEY@),
{
    reveal_strlit("FUTURE-Privacy-Policy-VERSION=");
}

proof fn lemma_f_pp_hash_key_ok()
    ensures
        line_ok(FUTURE_PP_HASH_KEY@),
{
    reveal_strlit("FUTURE-Privacy-Policy-HASH=");
}

proof fn lemma_f_pp_time_key_ok()
    ensures
        line_ok(FUTURE_PP_TIME_KEY@),
{
    reveal_strlit("FUTURE-Privacy-Policy-TIME=");
}

proof fn lemma_read_2(f: ConsentFields, a: Seq<char>, b: Seq<char>)
    ensures
        read_from(f, seq![a, b]) == read_line(read_line(f, a), b),
{
    reveal_with_fuel(read_from, 3);
    assert(seq![a, b].drop_last() =~= seq![a]);
    assert(seq![a].drop_last() =~= Seq::<Seq<char>>::empty());
}

proof fn lemma_read_3(f: ConsentFields, a: Seq<char>, b: Seq<char>, c: Seq<char>)
    ensures
        read_from(f, seq![a, b, c]) == read_line(read_line(read_line(f, a), b), c),
{
    reveal_with_fuel(read_from, 4);
    assert(seq![a, b, c].drop_last() =~= seq![a, b]);
    assert(seq![a, b].drop_last() =~= seq![a]);
    assert(seq![a].drop_last() =~= Seq::<Seq<char>>::empty());
}

proof fn lemma_read_4(f: ConsentFields, a: Seq<char>, b: Seq<char>, c: Seq<char>, d: Seq<char>)
    ensures
        read_from(f, seq![a, b, c, d]) == read_line(read_line(read_line(read_line(f, a), b), c), d),
{
    reveal_with_fuel(read_from, 5);
    assert(seq![a, b, c, d].drop_last() =~= seq![a, b, c]);
    assert(seq![a, b, c].drop_last() =~= seq![a, b]);
    assert(seq![a, b].drop_last() =~= seq![a]);
    assert(seq![a].drop_last() =~= Seq::<Seq<char>>::empty());
}

proof fn lemma_read_header(f: ConsentFields, now: u64)
    ensures
        read_from(f, header_lines(now)) == (ConsentFields { unix: decimal(now as nat), ..f }),
{
    lemma_read_4(f, HEADER_LINE_1@, HEADER_LINE_2@, HEADER_LINE_3@, UNIX_KEY@ + decimal(now as nat));
    lemma_read_header_line_1(f);
    lemma_read_header_line_2(f);
    lemma_read_header_line_3(f);
    lemma_read_unix(f, decimal(now as nat));
}

/// The fields after the block of an accepted Terms of Service.
spec fn with_tos(f: ConsentFields, accepted: bool, d: Option<DocModel>) -> ConsentFields {
    if accepted && d is Some {
        ConsentFields { tos: true, tos_version: d->0.version, tos_hash: d->0.hash, ..f }
    } else {
        f
    }
}

/// The fields after the block of an accepted Privacy Policy.
spec fn with_pp(f: ConsentFields, accepted: bool, d: Option<DocModel>) -> ConsentFields {
    if accepted && d is Some {
        ConsentFields { pp: true, pp_version: d->0.version, pp_hash: d->0.hash, ..f }
    } else {
        f
    }
}

/// The fields after the block of the current documents.
spec fn with_current(f: ConsentFields, m: ConsentModel) -> ConsentFields {
    match m.eula {
        Some(e) => with_pp(
            with_tos(
                ConsentFields { eula: m.accepted_eula, eula_version: e.version, eula_hash: e.hash, ..f },
                m.accepted_tos,
                m.tos,
            ),
            m.accepted_pp,
            m.privacy,
        ),
        None => ConsentFields { eula: false, ..f },
    }
}

spec fn with_future_eula(f: ConsentFields, d: Option<DocModel>) -> ConsentFields {
    match d {
        Some(x) => ConsentFields {
            f_eula_version: x.version,
            f_eula_hash: x.hash,
            f_eula_time: decimal(x.timestamp as nat),
            ..f
        },
        None => f,
    }
}

spec fn with_future_tos(f: ConsentFields, d: Option<DocModel>) -> ConsentFields {
    match d {
        Some(x) => ConsentFields {
            f_tos_version: x.version,
            f_tos_hash: x.hash,
            f_tos_time: decimal(x.timestamp as nat),
            ..f
        },
        None => f,
    }
}

spec fn with_future_pp(f: ConsentFields, d: Option<DocModel>) -> ConsentFields {
    match d {
        Some(x) => ConsentFields {
            f_pp_version: x.version,
            f_pp_hash: x.hash,
            f_pp_time: decimal(x.timestamp as nat),
            ..f
        },
        None => f,
    }
}

proof fn lemma_read_tos_block(f: ConsentFields, accepted: bool, d: Option<DocModel>)
    ensures
        read_from(f, optional_lines(accepted, d, TOS_LINE, TOS_KEY, TOS_VERSION_KEY, TOS_HASH_KEY)) == with_tos(
            f,
            accepted,
            d,
        ),
{
    if accepted && d is Some {
        let v = d->0.version;
        let h = d->0.hash;
        lemma_bool_plain(accepted);
        lemma_read_4(f, TOS_LINE@, TOS_KEY@ + bool_text(accepted), TOS_VERSION_KEY@ + v, TOS_HASH_KEY@ + h);
        lemma_read_tos_line(f);
        lemma_read_tos(f, bool_text(accepted));
        let f1 = ConsentFields { tos: true, ..f };
        lemma_read_tos_version(f1, v);
        let f2 = ConsentFields { tos_version: v, ..f1 };
        lemma_read_tos_hash(f2, h);
    } else {
        assert(optional_lines(accepted, d, TOS_LINE, TOS_KEY, TOS_VERSION_KEY, TOS_HASH_KEY) == Seq::<
            Seq<char>,
        >::empty());
    }
}

proof fn lemma_read_pp_block(f: ConsentFields, accepted: bool, d: Option<DocModel>)
    ensures
        read_from(f, optional_lines(accepted, d, PP_LINE, PP_KEY, PP_VERSION_KEY, PP_HASH_KEY)) == with_pp(
            f,
            accepted,
            d,
        ),
{
    if accepted && d is Some {
        let v = d->0.version;
        let h = d->0.hash;
        lemma_bool_plain(accepted);
        lemma_read_4(f, PP_LINE@, PP_KEY@ + bool_text(accepted), PP_VERSION_KEY@ + v, PP_HASH_KEY@ + h);
        lemma_read_pp_line(f);
        lemma_read_pp(f, bool_text(accepted));
        let f1 = ConsentFields { pp: true, ..f };
        lemma_read_pp_version(f1, v);
        let f2 = ConsentFields { pp_version: v, ..f1 };
        lemma_read_pp_hash(f2, h);
    } else {
        assert(optional_lines(accepted, d, PP_LINE, PP_KEY, PP_VERSION_KEY, PP_HASH_KEY) == Seq::<
            Seq<char>,
        >::empty());
    }
}

proof fn lemma_read_current(f: ConsentFields, m: ConsentModel)
    ensures
        read_from(f, current_lines(m)) == with_current(f, m),
{
    match m.eula {
        Some(e) => {
            let first = seq![
                EULA_LINE@,
                EULA_KEY@ + bool_text(m.accepted_eula),
                EULA_VERSION_KEY@ + e.version,
                EULA_HASH_KEY@ + e.hash,
            ];
            let t = optional_lines(m.accepted_tos, m.tos, TOS_LINE, TOS_KEY, TOS_VERSION_KEY, TOS_HASH_KEY);
            let p = optional_lines(m.accepted_pp, m.privacy, PP_LINE, PP_KEY, PP_VERSION_KEY, PP_HASH_KEY);
            lemma_bool_plain(m.accepted_eula);
            lemma_read_4(f, first[0], first[1], first[2], first[3]);
            assert(first =~= seq![first[0], first[1], first[2], first[3]]);
            lemma_read_eula_line(f);
            lemma_read_eula(f, bool_text(m.accepted_eula));
            let f1 = ConsentFields { eula: m.accepted_eula, ..f };
            lemma_read_eula_version(f1, e.version);
            let f2 = ConsentFields { eula_version: e.version, ..f1 };
            lemma_read_eula_hash(f2, e.hash);
            let f3 = ConsentFields { eula_hash: e.hash, ..f2 };
            lemma_read_append(f, first + t, p);
            lemma_read_append(f, first, t);
            lemma_read_tos_block(f3, m.accepted_tos, m.tos);
            lemma_read_pp_block(with_tos(f3, m.accepted_tos, m.tos), m.accepted_pp, m.privacy);
        },
        None => {
            lemma_bool_plain(false);
            lemma_read_2(f, NO_EULA_LINE@, EULA_KEY@ + bool_text(false));
            lemma_read_no_eula_line(f);
            lemma_read_eula(f, bool_text(false));
        },
    }
}

proof fn lemma_read_future_eula(f: ConsentFields, d: Option<DocModel>)
    ensures
        read_from(f, future_lines(d, FUTURE_EULA_VERSION_KEY, FUTURE_EULA_HASH_KEY, FUTURE_EULA_TIME_KEY))
            == with_future_eula(f, d),
{
    if let Some(x) = d {
        let t = decimal(x.timestamp as nat);
        lemma_read_3(f, FUTURE_EULA_VERSION_KEY@ + x.version, FUTURE_EULA_HASH_KEY@ + x.hash, FUTURE_EULA_TIME_KEY@ + t);
        lemma_read_f_eula_version(f, x.version);
        let f1 = ConsentFields { f_eula_version: x.version, ..f };
        lemma_read_f_eula_hash(f1, x.hash);
        let f2 = ConsentFields { f_eula_hash: x.hash, ..f1 };
        lemma_read_f_eula_time(f2, t);
    }
}

proof fn lemma_read_future_tos(f: ConsentFields, d: Option<DocModel>)
    ensures
        read_from(f, future_lines(d, FUTURE_TOS_VERSION_KEY, FUTURE_TOS_HASH_KEY, FUTURE_TOS_TIME_KEY))
            == with_future_tos(f, d),
{
    if let Some(x) = d {
        let t = decimal(x.timestamp as nat);
        lemma_read_3(f, FUTURE_TOS_VERSION_KEY@ + x.version, FUTURE_TOS_HASH_KEY@ + x.hash, FUTURE_TOS_TIME_KEY@ + t);
        lemma_read_f_tos_version(f, x.version);
        let f1 = ConsentFields { f_tos_version: x.version, ..f };
        lemma_read_f_tos_hash(f1, x.hash);
        let f2 = ConsentFields { f_tos_hash: x.hash, ..f1 };
        lemma_read_f_tos_time(f2, t);
    }
}

proof fn lemma_read_future_pp(f: ConsentFields, d: Option<DocModel>)
    ensures
        read_from(f, future_lines(d, FUTURE_PP_VERSION_KEY, FUTURE_PP_HASH_KEY, FUTURE_PP_TIME_KEY))
            == with_future_pp(f, d),
{
    if let Some(x) = d {
        let t = decimal(x.timestamp as nat);
        lemma_read_3(f, FUTURE_PP_VERSION_KEY@ + x.version, FUTURE_PP_HASH_KEY@ + x.hash, FUTURE_PP_TIME_KEY@ + t);
        lemma_read_f_pp_version(f, x.version);
        let f1 = ConsentFields { f_pp_version: x.version, ..f };
        lemma_read_f_pp_hash(f1, x.hash);
        let f2 = ConsentFields { f_pp_hash: x.hash, ..f1 };
        lemma_read_f_pp_time(f2, t);
    }
}

/// The fields read from the file.
spec fn file_fields(m: ConsentModel, now: u64) -> ConsentFields {
    with_future_pp(
        with_future_tos(
            with_future_eula(
                with_current(ConsentFields { unix: decimal(now as nat), ..empty_fields() }, m),
                m.future_eula,
            ),
            m.future_tos,
        ),
        m.future_privacy,
    )
}

proof fn lemma_read_file(m: ConsentModel, now: u64)
    ensures
        read_lines(file_lines(m, now)) == file_fields(m, now),
{
    let c = current_lines(m);
    let fe = future_lines(m.future_eula, FUTURE_EULA_VERSION_KEY, FUTURE_EULA_HASH_KEY, FUTURE_EULA_TIME_KEY);
    let ft = future_lines(m.future_tos, FUTURE_TOS_VERSION_KEY, FUTURE_TOS_HASH_KEY, FUTURE_TOS_TIME_KEY);
    let fp = future_lines(m.future_privacy, FUTURE_PP_VERSION_KEY, FUTURE_PP_HASH_KEY, FUTURE_PP_TIME_KEY);
    let e = empty_fields();
    lemma_read_lines_from(file_lines(m, now));
    lemma_read_append(e, header_lines(now), body_lines(m));
    lemma_read_header(e, now);
    let f0 = ConsentFields { unix: decimal(now as nat), ..e };
    lemma_read_append(f0, c + fe + ft, fp);
    lemma_read_append(f0, c + fe, ft);
    lemma_read_append(f0, c, fe);
    lemma_read_current(f0, m);
    let f1 = with_current(f0, m);
    lemma_read_future_eula(f1, m.future_eula);
    let f2 = with_future_eula(f1, m.future_eula);
    lemma_read_future_tos(f2, m.future_tos);
    let f3 = with_future_tos(f2, m.future_tos);
    lemma_read_future_pp(f3, m.future_privacy);
}

proof fn lemma_future_number(d: Option<DocModel>)
    ensures
        d is Some ==> crate::terms::consent_state::number_or_zero(decimal(d->0.timestamp as nat)) == d->0.timestamp,
{
    if let Some(x) = d {
        lemma_parse_decimal(x.timestamp);
    }
}

/// Reading back the `agreements` file written from a record at `written`
/// gives the record as the file keeps it (`kept_record`: the EULA, the
/// optional documents that are accepted, the scheduled versions with their
/// times, every current version stamped with the time of writing),
/// sanitized at the time of reading. It holds for every record whose
/// version names and hashes stay on their lines.
pub proof fn lemma_consent_file_round_trip(m: ConsentModel, written: u64, now: u64)
    requires
        plain_record(m),
    ensures
        consent_from_text(consent_text(m, written), now) == sanitized(kept_record(m, written), now),
{
    lemma_file_text(m, written);
    lemma_file_lines_plain(m, written);
    lemma_lines_of_join(file_lines(m, written));
    lemma_read_file(m, written);
    lemma_parse_decimal(written);
    lemma_future_number(m.future_eula);
    lemma_future_number(m.future_tos);
    lemma_future_number(m.future_privacy);
    reveal_strlit("true");
    assert(record_of(file_fields(m, written)) == kept_record(m, written));
}

} // verus!
