//! Object identifiers: fresh collision-resistant ids for new records, and
//! validation of client-supplied id strings, both through the bson crate's
//! ObjectId (a 12-byte value written as 24 hexadecimal characters).
use vstd::prelude::*;

use crate::text::lower_seq;

verus! {

pub open spec fn is_hex_digit(c: char) -> bool {
    ('0' <= c && c <= '9') || ('a' <= c && c <= 'f') || ('A' <= c && c <= 'F')
}

pub open spec fn is_lower_hex_digit(c: char) -> bool {
    ('0' <= c && c <= '9') || ('a' <= c && c <= 'f')
}

/// A well-formed object id string: exactly 24 hexadecimal characters.
pub open spec fn is_object_id(s: Seq<char>) -> bool {
    s.len() == 24 && forall|i: int| 0 <= i < 24 ==> is_hex_digit(#[trigger] s[i])
}

/// A canonical (lowercase) object id string.
pub open spec fn is_canonical_object_id(s: Seq<char>) -> bool {
    s.len() == 24 && forall|i: int| 0 <= i < 24 ==> is_lower_hex_digit(#[trigger] s[i])
}

/// Relies on bson::oid::ObjectId::new and to_hex: a fresh 12-byte id
/// (timestamp, per-process value, counter) written as 24 lowercase hex
/// characters. Freshness is collision-resistant, not assumed here.
#[verifier::external_body]
pub fn fresh_object_id() -> (r: String)
    ensures
        is_canonical_object_id(r@),
{
    bson::oid::ObjectId::new().to_hex()
}

/// Relies on bson::oid::ObjectId::parse_str and to_hex: parsing succeeds
/// exactly on 24-character hexadecimal strings (case-insensitive), and
/// re-encoding yields the same id in lowercase.
#[verifier::external_body]
pub fn parse_object_id(s: &str) -> (r: Option<String>)
    ensures
        r is Some <==> is_object_id(s@),
        r matches Some(id) ==> id@ == lower_seq(s@) && is_canonical_object_id(id@),
{
    bson::oid::ObjectId::parse_str(s).ok().map(|id| id.to_hex())
}

} // verus!
