//! JSON values as plain data: what the json crate reads from a text, and
//! the text it writes for a value.
use crate::text::str_eq;
use vstd::prelude::*;

verus! {

#[verifier::external_type_specification]
#[verifier::external_body]
pub struct ExJsonValue(json::JsonValue);

/// A JSON value. A number is held as the json crate holds it: its sign
/// (`true` when not negative), mantissa and decimal exponent.
#[derive(Debug)]
pub enum Json {
    Null,
    Bool(bool),
    Number((bool, u64, i16)),
    Text(String),
    Array(Vec<Json>),
    Object(Vec<(String, Json)>),
}

/// The value `json::parse` reads from `text`, as plain data; `None` when
/// the text is no JSON.
pub uninterp spec fn json_parsed(text: Seq<char>) -> Option<Json>;

/// The text `JsonValue::dump` writes for a value.
pub uninterp spec fn json_dumped(j: Json) -> Seq<char>;

/// The value of a `JsonValue` as plain data, member by member and element
/// by element. Called only by the two functions below, which hand values
/// over between the json crate and this library.
#[verifier::external_body]
fn model_of(v: &json::JsonValue) -> Json {
    match v {
        json::JsonValue::Null => Json::Null,
        json::JsonValue::Short(s) => Json::Text(s.as_str().to_string()),
        json::JsonValue::String(s) => Json::Text(s.clone()),
        json::JsonValue::Number(n) => Json::Number(n.as_parts()),
        json::JsonValue::Boolean(b) => Json::Bool(*b),
        json::JsonValue::Object(o) => Json::Object(o.iter().map(|(k, x)| (k.to_string(), model_of(x))).collect()),
        json::JsonValue::Array(a) => Json::Array(a.iter().map(model_of).collect()),
    }
}

/// The `JsonValue` for a plain value; the inverse of `model_of`.
#[verifier::external_body]
fn value_of(j: &Json) -> json::JsonValue {
    match j {
        Json::Null => json::JsonValue::Null,
        Json::Bool(b) => json::JsonValue::Boolean(*b),
        Json::Number((p, m, e)) => json::JsonValue::Number(json::number::Number::from_parts(*p, *m, *e)),
        Json::Text(s) => json::JsonValue::String(s.clone()),
        Json::Array(a) => json::JsonValue::Array(a.iter().map(value_of).collect()),
        Json::Object(o) => json::JsonValue::Object(o.iter().map(|(k, x)| (k.as_str(), value_of(x))).collect()),
    }
}

/// `json::parse`: the value the text holds, named by `json_parsed`; `None`
/// when the text is no JSON.
#[verifier::external_body]
pub(crate) fn parse_json(text: &str) -> (r: Option<Json>)
    ensures
        r == json_parsed(text@),
{
    match json::parse(text) {
        Ok(v) => Some(model_of(&v)),
        Err(_) => None,
    }
}

/// `JsonValue::dump`: the compact JSON text of a value, named by `json_dumped`.
#[verifier::external_body]
pub(crate) fn dump_json(j: &Json) -> (r: String)
    ensures
        r@ == json_dumped(*j),
{
    value_of(j).dump()
}

/// The first member named `key` among `members`.
pub open spec fn member_in(members: Seq<(String, Json)>, key: Seq<char>) -> Option<Json>
    decreases members.len(),
{
    if members.len() == 0 {
        None
    } else if members[0].0@ == key {
        Some(members[0].1)
    } else {
        member_in(members.drop_first(), key)
    }
}

/// The member `key` of an object, as `JsonValue`'s index reads it: `Null`
/// when there is none or the value is no object.
pub open spec fn member(j: Json, key: Seq<char>) -> Json {
    match j {
        Json::Object(ms) => match member_in(ms@, key) {
            Some(v) => v,
            None => Json::Null,
        },
        _ => Json::Null,
    }
}

/// The text of a string value (`as_str`).
pub open spec fn text_of(j: Json) -> Option<Seq<char>> {
    match j {
        Json::Text(s) => Some(s@),
        _ => None,
    }
}

/// An `i64` as `as_i64` reads it from a number: one with exponent 0, the
/// mantissa taken as an `i64` (wrapping) and negated when the sign says so.
pub open spec fn i64_of(j: Json) -> Option<i64> {
    match j {
        Json::Number((p, m, e)) => if e != 0 {
            None
        } else if p {
            Some(m as i64)
        } else if m as i64 == i64::MIN {
            Some(i64::MIN)
        } else {
            Some((-(m as i64)) as i64)
        },
        _ => None,
    }
}

/// The number `Number::from` makes of an `i64`.
pub open spec fn number_of(n: i64) -> (bool, u64, i16) {
    if n < 0 {
        (false, (-n) as u64, 0)
    } else {
        (true, n as u64, 0)
    }
}

/// The member `key` of `j`, if `j` is an object that has one.
pub fn get_member<'a>(j: &'a Json, key: &str) -> (r: Option<&'a Json>)
    ensures
        r matches Some(v) ==> *v == member(*j, key@),
        r matches Some(v) ==> (*j matches Json::Object(ms) && member_in(ms@, key@) == Some(*v)),
        r is None ==> member(*j, key@) == Json::Null,
        r is None ==> (*j matches Json::Object(ms) ==> member_in(ms@, key@) is None),
{
    match j {
        Json::Object(ms) => {
            let mut i: usize = 0;
            assert(ms@.skip(0) =~= ms@);
            while i < ms.len()
                invariant
                    *j == Json::Object(*ms),
                    i <= ms@.len(),
                    member_in(ms@, key@) == member_in(ms@.skip(i as int), key@),
                decreases ms@.len() - i,
            {
                assert(ms@.skip(i as int).drop_first() =~= ms@.skip(i + 1));
                assert(ms@.skip(i as int)[0] == ms@[i as int]);
                if str_eq(ms[i].0.as_str(), key) {
                    return Some(&ms[i].1);
                }
                i = i + 1;
            }
            assert(ms@.skip(i as int) =~= Seq::<(String, Json)>::empty());
            None
        },
        _ => None,
    }
}

/// The text of a string value.
pub fn as_text(j: &Json) -> (r: Option<&String>)
    ensures
        match r {
            Some(s) => text_of(*j) == Some(s@),
            None => text_of(*j) is None,
        },
{
    match j {
        Json::Text(s) => Some(s),
        _ => None,
    }
}

/// The value of an integral number, as `as_i64` reads it.
pub fn as_i64(j: &Json) -> (r: Option<i64>)
    ensures
        r == i64_of(*j),
{
    match j {
        Json::Number((p, m, e)) => {
            if *e != 0 {
                None
            } else {
                #[verifier::truncate]
                let v = *m as i64;
                if *p {
                    Some(v)
                } else if v == i64::MIN {
                    Some(i64::MIN)
                } else {
                    Some(-v)
                }
            }
        },
        _ => None,
    }
}

/// The number for an `i64`, as `Number::from` makes it.
pub fn from_i64(n: i64) -> (r: Json)
    ensures
        r == Json::Number(number_of(n)),
{
    if n < 0 {
        if n == i64::MIN {
            Json::Number((false, 9223372036854775808u64, 0))
        } else {
            Json::Number((false, (-n) as u64, 0))
        }
    } else {
        Json::Number((true, n as u64, 0))
    }
}


/// A string value with text `t`.
pub open spec fn text_is(j: Json, t: Seq<char>) -> bool {
    j matches Json::Text(s) && s@ == t
}

/// A `u64` as `as_u64` reads it from a number: one that is not negative
/// and has exponent 0.
pub open spec fn u64_of(j: Json) -> Option<u64> {
    match j {
        Json::Number((p, m, e)) => if p && e == 0 {
            Some(m)
        } else {
            None
        },
        _ => None,
    }
}

/// The number `Number::from` makes of a `u64`.
pub open spec fn unsigned_number(n: u64) -> (bool, u64, i16) {
    (true, n, 0)
}

/// The text member `key` of `j`, if it is a string.
pub fn text_member<'a>(j: &'a Json, key: &str) -> (r: Option<&'a String>)
    ensures
        match r {
            Some(s) => text_of(member(*j, key@)) == Some(s@),
            None => text_of(member(*j, key@)) is None,
        },
{
    match get_member(j, key) {
        Some(v) => as_text(v),
        None => None,
    }
}

/// The integral member `key` of `j`, as `as_i64` reads it.
pub fn i64_member(j: &Json, key: &str) -> (r: Option<i64>)
    ensures
        r == i64_of(member(*j, key@)),
{
    match get_member(j, key) {
        Some(v) => as_i64(v),
        None => None,
    }
}

/// The unsigned integral member `key` of `j`, as `as_u64` reads it.
pub fn u64_member(j: &Json, key: &str) -> (r: Option<u64>)
    ensures
        r == u64_of(member(*j, key@)),
{
    match get_member(j, key) {
        Some(v) => match v {
            Json::Number((p, m, e)) => if *p && *e == 0 {
                Some(*m)
            } else {
                None
            },
            _ => None,
        },
        None => None,
    }
}

/// A string value.
pub fn text_value(s: &str) -> (r: Json)
    ensures
        text_is(r, s@),
{
    Json::Text(s.to_string())
}

/// A member: its name and value.
pub fn named(key: &str, value: Json) -> (r: (String, Json))
    ensures
        r.0@ == key@,
        r.1 == value,
{
    (key.to_string(), value)
}

/// An `i64` written as a number reads back as that `i64`.
pub proof fn lemma_i64_number(n: i64)
    ensures
        i64_of(Json::Number(number_of(n))) == Some(n),
{
    if n < 0 {
        let m: u64 = (-n) as u64;
        if n == i64::MIN {
            assert(m == 0x8000_0000_0000_0000u64);
            assert(0x8000_0000_0000_0000u64 as i64 == i64::MIN) by (bit_vector);
        } else {
            assert(m <= i64::MAX);
            assert(m as i64 == m);
        }
    } else {
        assert(n as u64 as i64 == n);
    }
}


/// The member named `k` is the first one with that name.
pub proof fn lemma_member_at(ms: Seq<(String, Json)>, k: Seq<char>, i: int)
    requires
        0 <= i < ms.len(),
        ms[i].0@ == k,
        forall|j: int| 0 <= j < i ==> #[trigger] ms[j].0@ != k,
    ensures
        member_in(ms, k) == Some(ms[i].1),
    decreases i,
{
    if i > 0 {
        assert(ms[0].0@ != k);
        let rest = ms.drop_first();
        assert forall|j: int| 0 <= j < i - 1 implies #[trigger] rest[j].0@ != k by {
            assert(rest[j] == ms[j + 1]);
        }
        lemma_member_at(rest, k, i - 1);
    }
}

/// No member is named `k`.
pub proof fn lemma_member_absent(ms: Seq<(String, Json)>, k: Seq<char>)
    requires
        forall|j: int| 0 <= j < ms.len() ==> #[trigger] ms[j].0@ != k,
    ensures
        member_in(ms, k) is None,
    decreases ms.len(),
{
    if ms.len() > 0 {
        assert(ms[0].0@ != k);
        let rest = ms.drop_first();
        assert forall|j: int| 0 <= j < rest.len() implies #[trigger] rest[j].0@ != k by {
            assert(rest[j] == ms[j + 1]);
        }
        lemma_member_absent(rest, k);
    }
}

} // verus!
