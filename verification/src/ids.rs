//! Identifiers: UUIDs held as their 128-bit value.
use vstd::prelude::*;

verus! {

/// A fresh random version-4 UUID (`Uuid::new_v4`), as its `u128` value. The
/// version nibble is 4 and the variant bits are `10`, as the uuid crate sets them.
#[verifier::external_body]
pub(crate) fn new_uuid() -> (r: u128)
    ensures
        (r >> 76u128) & 0xfu128 == 4,
        (r >> 62u128) & 0x3u128 == 2,
{
    uuid::Uuid::new_v4().as_u128()
}

/// The UUID a non-empty text denotes as `Uuid::parse_str` reads it
/// (simple, hyphenated, URN or braced form), or `None` when it denotes none.
pub uninterp spec fn uuid_parsed(s: Seq<char>) -> Option<u128>;

/// The UUID a text denotes as `Uuid::parse_str` reads it: none for the
/// empty text, whose length is none of the lengths the parser takes.
pub open spec fn uuid_parse(s: Seq<char>) -> Option<u128> {
    if s.len() == 0 {
        None
    } else {
        uuid_parsed(s)
    }
}

/// The hyphenated lowercase form of a UUID, as `Uuid`'s `Display` writes it.
pub uninterp spec fn uuid_text(u: u128) -> Seq<char>;

/// `Uuid::parse_str`, keeping the value: `None` for the empty text (the
/// parser takes only texts of 32, 36, 38 or 45 bytes), else the result named
/// by `uuid_parsed`.
#[verifier::external_body]
pub(crate) fn parse_uuid(s: &str) -> (r: Option<u128>)
    ensures
        s@.len() == 0 ==> r is None,
        s@.len() != 0 ==> r == uuid_parsed(s@),
{
    match uuid::Uuid::parse_str(s) {
        Ok(u) => Some(u.as_u128()),
        Err(_) => None,
    }
}

/// `Uuid::to_string`: the hyphenated form, named by `uuid_text`. As the
/// uuid crate documents, `Uuid::parse_str` reads every form it writes, so
/// the text parses back to the same UUID.
#[verifier::external_body]
pub(crate) fn uuid_to_string(u: u128) -> (r: String)
    ensures
        r@ == uuid_text(u),
        uuid_parse(r@) == Some(u),
{
    uuid::Uuid::from_u128(u).to_string()
}

} // verus!
