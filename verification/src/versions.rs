//! The identifier variant set: one value type per generation scheme.
//!
//! Each variant wraps exactly one 128-bit identifier, set once at
//! construction and never mutated afterwards. All variants satisfy the
//! shared `UuidVersion` capability, so callers can read the payload
//! uniformly regardless of which scheme produced it.

use vstd::prelude::*;
use crate::generate::{
    md5_name, md5_name_id, now_v1_id, now_v6_id, now_v7_id, random_id, sha1_name, sha1_name_id,
    NAMESPACE_DNS,
};
use crate::{variant_of, version_of};

verus! {

/// Shared capability: any variant can be treated, read-only, as a 128-bit
/// identifier.
pub trait UuidVersion {
    /// The identifier payload, as specifications see it.
    spec fn id(&self) -> u128;

    /// Read-only access to the contained identifier: returns the value the
    /// wrapper was constructed with, bit for bit. Never fails and has no
    /// observable side effect.
    fn uuid(&self) -> (r: u128)
        ensures
            r == self.id(),
    ;
}

/// The identifier that the default version 3 construction yields: the MD5
/// name hash of the DNS namespace and the empty name.
pub open spec fn default_v3_id() -> u128 {
    md5_name_id(NAMESPACE_DNS, Seq::<u8>::empty())
}

/// The identifier that the default version 5 construction yields: the SHA-1
/// name hash of the DNS namespace and the empty name.
pub open spec fn default_v5_id() -> u128 {
    sha1_name_id(NAMESPACE_DNS, Seq::<u8>::empty())
}

/// Represents a version 1 identifier (time-based).
#[derive(Clone, Copy)]
pub struct V1(u128);

impl V1 {
    /// Wraps an existing 128-bit identifier value.
    pub fn from_u128(id: u128) -> (s: Self)
        ensures
            s.id() == id,
    {
        V1(id)
    }
}

impl UuidVersion for V1 {
    closed spec fn id(&self) -> u128 {
        self.0
    }

    fn uuid(&self) -> (r: u128) {
        self.0
    }
}

impl Default for V1 {
    /// Creates a new version 1 identifier from the current timestamp and the
    /// default (all-zero) node id.
    fn default() -> (s: Self)
        ensures
            version_of(s.id()) == 1,
            variant_of(s.id()) == 2,
    {
        let node: [u8; 6] = [0u8; 6];
        V1(now_v1_id(&node))
    }
}

/// Represents a version 3 identifier (name-based, MD5 hash).
#[derive(Clone, Copy)]
pub struct V3(u128);

impl V3 {
    /// Wraps an existing 128-bit identifier value.
    pub fn from_u128(id: u128) -> (s: Self)
        ensures
            s.id() == id,
    {
        V3(id)
    }
}

impl UuidVersion for V3 {
    closed spec fn id(&self) -> u128 {
        self.0
    }

    fn uuid(&self) -> (r: u128) {
        self.0
    }
}

impl Default for V3 {
    /// Creates a new version 3 identifier by hashing the DNS namespace and
    /// the default (empty) name.
    fn default() -> (s: Self)
        ensures
            s.id() == default_v3_id(),
            version_of(s.id()) == 3,
    {
        let name: Vec<u8> = Vec::new();
        proof {
            assert(name@ =~= Seq::<u8>::empty());
        }
        V3(md5_name(NAMESPACE_DNS, name.as_slice()))
    }
}

/// Represents a version 4 identifier (random).
#[derive(Clone, Copy)]
pub struct V4(u128);

impl V4 {
    /// Wraps an existing 128-bit identifier value.
    pub fn from_u128(id: u128) -> (s: Self)
        ensures
            s.id() == id,
    {
        V4(id)
    }
}

impl UuidVersion for V4 {
    closed spec fn id(&self) -> u128 {
        self.0
    }

    fn uuid(&self) -> (r: u128) {
        self.0
    }
}

impl Default for V4 {
    /// Creates a new random version 4 identifier.
    fn default() -> (s: Self)
        ensures
            version_of(s.id()) == 4,
            variant_of(s.id()) == 2,
    {
        V4(random_id())
    }
}

/// Represents a version 5 identifier (name-based, SHA-1 hash).
#[derive(Clone, Copy)]
pub struct V5(u128);

impl V5 {
    /// Wraps an existing 128-bit identifier value.
    pub fn from_u128(id: u128) -> (s: Self)
        ensures
            s.id() == id,
    {
        V5(id)
    }
}

impl UuidVersion for V5 {
    closed spec fn id(&self) -> u128 {
        self.0
    }

    fn uuid(&self) -> (r: u128) {
        self.0
    }
}

impl Default for V5 {
    /// Creates a new version 5 identifier by hashing the DNS namespace and
    /// the default (empty) name.
    fn default() -> (s: Self)
        ensures
            s.id() == default_v5_id(),
            version_of(s.id()) == 5,
    {
        let name: Vec<u8> = Vec::new();
        proof {
            assert(name@ =~= Seq::<u8>::empty());
        }
        V5(sha1_name(NAMESPACE_DNS, name.as_slice()))
    }
}

/// Represents a version 6 identifier (reordered time-based).
#[derive(Clone, Copy)]
pub struct V6(u128);

impl V6 {
    /// Wraps an existing 128-bit identifier value.
    pub fn from_u128(id: u128) -> (s: Self)
        ensures
            s.id() == id,
    {
        V6(id)
    }
}

impl UuidVersion for V6 {
    closed spec fn id(&self) -> u128 {
        self.0
    }

    fn uuid(&self) -> (r: u128) {
        self.0
    }
}

impl Default for V6 {
    /// Creates a new version 6 identifier from the current timestamp and the
    /// default (all-zero) node id.
    fn default() -> (s: Self)
        ensures
            version_of(s.id()) == 6,
            variant_of(s.id()) == 2,
    {
        let node: [u8; 6] = [0u8; 6];
        V6(now_v6_id(&node))
    }
}

/// Represents a version 7 identifier (time-ordered).
#[derive(Clone, Copy)]
pub struct V7(u128);

impl V7 {
    /// Wraps an existing 128-bit identifier value.
    pub fn from_u128(id: u128) -> (s: Self)
        ensures
            s.id() == id,
    {
        V7(id)
    }
}

impl UuidVersion for V7 {
    closed spec fn id(&self) -> u128 {
        self.0
    }

    fn uuid(&self) -> (r: u128) {
        self.0
    }
}

impl Default for V7 {
    /// Creates a new version 7 identifier from the current Unix timestamp at
    /// millisecond precision.
    fn default() -> (s: Self)
        ensures
            version_of(s.id()) == 7,
            variant_of(s.id()) == 2,
    {
        V7(now_v7_id())
    }
}

/// Represents a nil identifier (all zeros).
#[derive(Clone, Copy)]
pub struct Nil;

impl UuidVersion for Nil {
    open spec fn id(&self) -> u128 {
        0
    }

    fn uuid(&self) -> (r: u128)
        ensures
            r == 0,
    {
        0u128
    }
}

impl Default for Nil {
    /// Creates a new nil identifier wrapper (all zeros). Needs no external
    /// call and never fails.
    fn default() -> (s: Self)
        ensures
            s.id() == 0,
    {
        Nil
    }
}

/// The nil variant's identifier is all 128 bits zero, for every instance,
/// with no dependency on time or randomness.
pub proof fn lemma_nil_is_zero(n: &Nil)
    ensures
        n.id() == 0,
{
}

/// Determinism of the version 3 scheme: any two identifiers produced by the
/// default MD5 name-hash construction are bit-identical.
pub proof fn lemma_v3_default_deterministic(a: &V3, b: &V3)
    requires
        a.id() == default_v3_id(),
        b.id() == default_v3_id(),
    ensures
        a.id() == b.id(),
{
}

/// Determinism of the version 5 scheme: any two identifiers produced by the
/// default SHA-1 name-hash construction are bit-identical.
pub proof fn lemma_v5_default_deterministic(a: &V5, b: &V5)
    requires
        a.id() == default_v5_id(),
        b.id() == default_v5_id(),
    ensures
        a.id() == b.id(),
{
}

} // verus!
