//! Fresh identities and secrets, drawn by `bson`.
//!
//! Nothing in this file is proved: each contract states what the named
//! function of the other crate is relied upon to do.

use vstd::prelude::*;

verus! {

/// Calls `bson::oid::ObjectId::new` and hands back its twelve bytes as one
/// big-endian number, which is therefore below 2^96. The id depends on the
/// clock, the process and a counter, so no more is claimed. The generator
/// reads the system clock and expects it to stand between 1970 and 2106.
#[verifier::external_body]
pub(crate) fn fresh_object_id() -> (value: u128)
    ensures
        value < 0x1_0000_0000_0000_0000_0000_0000,
{
    let b = bson::oid::ObjectId::new().bytes();
    u128::from_be_bytes(
        [0, 0, 0, 0, b[0], b[1], b[2], b[3], b[4], b[5], b[6], b[7], b[8], b[9], b[10], b[11]],
    )
}

/// Calls `bson::Uuid::new` and writes the random identifier out in its
/// hyphenated form, which is 36 characters long. The identifier is random, so
/// no more is claimed.
#[verifier::external_body]
pub(crate) fn fresh_uuid_text() -> (text: String)
    ensures
        text@.len() == 36,
{
    bson::Uuid::new().to_string()
}

} // verus!
