//! The boundary to the external identifier-generation library.
//!
//! Every generation algorithm (timestamp encoding, name hashing, random
//! fill) is delegated to the external library; each function here makes
//! exactly one such call and hands the result back as a plain 128-bit value.

use vstd::prelude::*;
use crate::{variant_of, version_of};

verus! {

/// The namespace identifier for Domain Name System names, as fixed by
/// RFC 9562, read as a big-endian 128-bit value.
pub const NAMESPACE_DNS: u128 = 0x6ba7b8109dad11d180b400c04fd430c8;

/// The version 3 (MD5) name-hash identifier for a namespace and a name.
/// It is determined by those two arguments alone.
pub uninterp spec fn md5_name_id(ns: u128, name: Seq<u8>) -> u128;

/// The version 5 (SHA-1) name-hash identifier for a namespace and a name.
/// It is determined by those two arguments alone.
pub uninterp spec fn sha1_name_id(ns: u128, name: Seq<u8>) -> u128;

/// Relies on uuid::Uuid::now_v1: a version 1 identifier built from the
/// current system time and the given node id; its version nibble is 1 and
/// its variant bits are the RFC 4122 ones.
#[verifier::external_body]
pub(crate) fn now_v1_id(node_id: &[u8; 6]) -> (r: u128)
    ensures
        version_of(r) == 1,
        variant_of(r) == 2,
{
    uuid::Uuid::now_v1(node_id).as_u128()
}

/// Relies on uuid::Uuid::new_v3: the MD5 hash of the namespace and the name,
/// a function of those arguments alone; its version nibble is 3.
#[verifier::external_body]
pub(crate) fn md5_name(ns: u128, name: &[u8]) -> (r: u128)
    ensures
        r == md5_name_id(ns, name@),
        version_of(r) == 3,
{
    uuid::Uuid::new_v3(&uuid::Uuid::from_u128(ns), name).as_u128()
}

/// Relies on uuid::Uuid::new_v4: 128 cryptographically random bits with the
/// version nibble forced to 4 and the variant bits to the RFC 4122 ones;
/// nothing more holds of every outcome.
#[verifier::external_body]
pub(crate) fn random_id() -> (r: u128)
    ensures
        version_of(r) == 4,
        variant_of(r) == 2,
{
    uuid::Uuid::new_v4().as_u128()
}

/// Relies on uuid::Uuid::new_v5: the SHA-1 hash of the namespace and the
/// name, a function of those arguments alone; its version nibble is 5.
#[verifier::external_body]
pub(crate) fn sha1_name(ns: u128, name: &[u8]) -> (r: u128)
    ensures
        r == sha1_name_id(ns, name@),
        version_of(r) == 5,
{
    uuid::Uuid::new_v5(&uuid::Uuid::from_u128(ns), name).as_u128()
}

/// Relies on uuid::Uuid::now_v6: a version 6 (reordered time-based)
/// identifier from the current system time and the given node id; its
/// version nibble is 6 and its variant bits are the RFC 4122 ones.
#[verifier::external_body]
pub(crate) fn now_v6_id(node_id: &[u8; 6]) -> (r: u128)
    ensures
        version_of(r) == 6,
        variant_of(r) == 2,
{
    uuid::Uuid::now_v6(node_id).as_u128()
}

/// Relies on uuid::Uuid::now_v7: a version 7 (time-ordered) identifier from
/// the current Unix time at millisecond precision; its version nibble is 7
/// and its variant bits are the RFC 4122 ones.
#[verifier::external_body]
pub(crate) fn now_v7_id() -> (r: u128)
    ensures
        version_of(r) == 7,
        variant_of(r) == 2,
{
    uuid::Uuid::now_v7().as_u128()
}

} // verus!
