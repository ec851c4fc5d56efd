//! Post identifiers: 128-bit UUIDs, held as the `u128` that
//! `uuid::Uuid::as_u128` gives.

use vstd::prelude::*;

verus! {

/// The UUID version number that `v` carries (bits 76 to 79).
pub open spec fn uuid_version(v: u128) -> u128 {
    (v >> 76u128) & 0xfu128
}

/// The UUID variant bits that `v` carries (bits 62 and 63).
pub open spec fn uuid_variant(v: u128) -> u128 {
    (v >> 62u128) & 0x3u128
}

/// The `j`-th version-4 identifier in a fixed list of spare ones: the
/// version and variant bits set, the 64 bits of `j` spread over the bits no
/// UUID field claims (bits 0 to 61, then 64 and 65).
pub open spec fn spare_uuid(j: u128) -> u128 {
    0x4000_8000_0000_0000_0000u128 | (j & 0x3fff_ffff_ffff_ffffu128) | ((j >> 62u128) << 64u128)
}

/// The position in the list of spare identifiers that `v` would have.
pub open spec fn spare_index(v: u128) -> u128 {
    (v & 0x3fff_ffff_ffff_ffffu128) | (((v >> 64u128) & 0x3u128) << 62u128)
}

/// Spare identifiers are version 4 with the RFC 4122 variant, and tell their
/// position.
pub proof fn lemma_spare_uuid(j: u128)
    by (bit_vector)
    requires
        j < 0x1_0000_0000_0000_0000u128,
    ensures
        spare_index(spare_uuid(j)) == j,
        uuid_version(spare_uuid(j)) == 4,
        uuid_variant(spare_uuid(j)) == 2,
{
}

/// The `j`-th spare identifier (see `spare_uuid`).
pub fn spare(j: u128) -> (id: u128)
    ensures
        id == spare_uuid(j),
{
    0x4000_8000_0000_0000_0000u128 | (j & 0x3fff_ffff_ffff_ffffu128) | ((j >> 62u128) << 64u128)
}

/// Calls `uuid::Uuid::new_v4()` and hands back its 128-bit value. The value
/// is random; the contract claims only what the crate sets in every outcome:
/// version 4 and the RFC 4122 variant (binary 10).
#[verifier::external_body]
pub(crate) fn new_v4() -> (id: u128)
    ensures
        uuid_version(id) == 4,
        uuid_variant(id) == 2,
{
    uuid::Uuid::new_v4().as_u128()
}

/// What `uuid::Uuid::parse_str(s)` gives for the text `s`, as a 128-bit
/// value, or `None` where it returns an error.
pub uninterp spec fn uuid_parse(s: Seq<char>) -> Option<u128>;

#[verifier::external_type_specification]
#[verifier::external_body]
pub struct ExUuidError(uuid::Error);

/// Calls `uuid::Uuid::parse_str(s)` and hands back the parsed UUID's 128-bit
/// value. The contract claims that the result is a function of the text alone
/// (named `uuid_parse`); which texts the crate accepts (hyphenated, simple,
/// braced and URN forms) is not restated here.
#[verifier::external_body]
pub(crate) fn parse_uuid_str(s: &str) -> (r: Result<u128, uuid::Error>)
    ensures
        r is Ok <==> uuid_parse(s@) is Some,
        r matches Ok(v) ==> uuid_parse(s@) == Some(v),
{
    match uuid::Uuid::parse_str(s) {
        Ok(u) => Ok(u.as_u128()),
        Err(e) => Err(e),
    }
}

} // verus!
