//! Typed wrappers around 128-bit universally unique identifiers, one wrapper
//! per generation scheme, each exposing the identifier's raw value uniformly.

pub mod generate;
pub mod versions;

use vstd::prelude::*;

verus! {

/// The version nibble of an identifier: the high four bits of the seventh
/// byte, counting the most significant byte first.
pub open spec fn version_of(v: u128) -> u128 {
    (v >> 76) & 0xf
}

/// The variant field of an identifier: the high two bits of the ninth byte,
/// counting the most significant byte first. RFC 4122 identifiers carry the
/// value 2 (binary 10) there.
pub open spec fn variant_of(v: u128) -> u128 {
    (v >> 62) & 0x3
}

/// The byte of `v` at position `i`, counting the most significant byte
/// first.
pub open spec fn byte_at(v: u128, i: int) -> u8 {
    ((v >> ((8 * (15 - i)) as u128)) & 0xff) as u8
}

/// The sixteen bytes of a 128-bit identifier, most significant byte first.
pub fn be_bytes_of(v: u128) -> (r: Vec<u8>)
    ensures
        r@.len() == 16,
        forall|i: int| 0 <= i < 16 ==> r@[i] == byte_at(v, i),
{
    let mut out: Vec<u8> = Vec::new();
    let mut i: usize = 0;
    while i < 16
        invariant
            i <= 16,
            out@.len() == i as int,
            forall|j: int| 0 <= j < i as int ==> out@[j] == byte_at(v, j),
        decreases 16 - i,
    {
        let sh: u128 = (8 * (15 - i)) as u128;
        assert(((v >> sh) & 0xff) < 256) by (bit_vector);
        let b: u8 = ((v >> sh) & 0xff) as u8;
        out.push(b);
        i = i + 1;
    }
    out
}

} // verus!
