use uuid::Uuid;
use uuid_versions::be_bytes_of;
use uuid_versions::generate::NAMESPACE_DNS;
use uuid_versions::versions::{Nil, UuidVersion, V1, V3, V4, V5, V6, V7};

#[test]
fn round_trip_wrapped_value() {
    let v: u128 = 0xa1a2a3a4b1b2c1c2d1d2d3d4d5d6d7d8;
    assert_eq!(V1::from_u128(v).uuid(), v);
    assert_eq!(V3::from_u128(v).uuid(), v);
    assert_eq!(V4::from_u128(v).uuid(), v);
    assert_eq!(V5::from_u128(v).uuid(), v);
    assert_eq!(V6::from_u128(v).uuid(), v);
    assert_eq!(V7::from_u128(v).uuid(), v);
    assert_eq!(V4::from_u128(0).uuid(), 0);
    assert_eq!(V4::from_u128(u128::MAX).uuid(), u128::MAX);
}

#[test]
fn nil_is_all_zero() {
    assert_eq!(Nil::default().uuid(), 0);
    assert_eq!(Nil::default().uuid(), 0);
    assert_eq!(Nil.uuid(), 0);
}

#[test]
fn random_instances_differ() {
    let a = V4::default().uuid();
    let b = V4::default().uuid();
    assert_ne!(a, b);
}

#[test]
fn md5_default_is_deterministic() {
    let a = V3::default().uuid();
    let b = V3::default().uuid();
    assert_eq!(a, b);
}

#[test]
fn sha1_default_is_deterministic_and_diverges_from_md5() {
    let a = V5::default().uuid();
    let b = V5::default().uuid();
    assert_eq!(a, b);
    assert_ne!(a, V3::default().uuid());
}

#[test]
fn md5_default_matches_generation_library() {
    let expected = Uuid::new_v3(&Uuid::NAMESPACE_DNS, &[]).as_u128();
    assert_eq!(V3::default().uuid(), expected);
}

#[test]
fn sha1_default_matches_generation_library() {
    let expected = Uuid::new_v5(&Uuid::NAMESPACE_DNS, &[]).as_u128();
    assert_eq!(V5::default().uuid(), expected);
}

#[test]
fn dns_namespace_matches_generation_library() {
    assert_eq!(NAMESPACE_DNS, Uuid::NAMESPACE_DNS.as_u128());
}

#[test]
fn default_versions_carry_their_nibble() {
    assert_eq!(Uuid::from_u128(V1::default().uuid()).get_version_num(), 1);
    assert_eq!(Uuid::from_u128(V3::default().uuid()).get_version_num(), 3);
    assert_eq!(Uuid::from_u128(V4::default().uuid()).get_version_num(), 4);
    assert_eq!(Uuid::from_u128(V5::default().uuid()).get_version_num(), 5);
    assert_eq!(Uuid::from_u128(V6::default().uuid()).get_version_num(), 6);
    assert_eq!(Uuid::from_u128(V7::default().uuid()).get_version_num(), 7);
}

#[test]
fn default_versions_carry_rfc4122_variant_bits() {
    let ids: Vec<u128> = vec![
        V1::default().uuid(),
        V4::default().uuid(),
        V6::default().uuid(),
        V7::default().uuid(),
    ];
    for id in ids {
        assert_eq!((id >> 62) & 0x3, 2);
        assert_eq!(Uuid::from_u128(id).get_variant(), uuid::Variant::RFC4122);
    }
}

#[test]
fn time_based_succession_is_non_decreasing() {
    let a = V1::default().uuid();
    let b = V1::default().uuid();
    let (ticks_a, _) = Uuid::from_u128(a).get_timestamp().unwrap().to_gregorian();
    let (ticks_b, _) = Uuid::from_u128(b).get_timestamp().unwrap().to_gregorian();
    assert!(ticks_a <= ticks_b);
}

#[test]
fn reordered_time_succession_is_non_decreasing() {
    let a = V6::default().uuid();
    let b = V6::default().uuid();
    let (ticks_a, _) = Uuid::from_u128(a).get_timestamp().unwrap().to_gregorian();
    let (ticks_b, _) = Uuid::from_u128(b).get_timestamp().unwrap().to_gregorian();
    assert!(ticks_a <= ticks_b);
}

#[test]
fn time_ordered_succession_is_non_decreasing() {
    let a = V7::default().uuid();
    let b = V7::default().uuid();
    // The leading 48 bits of a version 7 identifier hold its millisecond
    // timestamp, so comparing them compares creation times.
    assert!(a >> 80 <= b >> 80);
}

#[test]
fn every_variant_yields_sixteen_bytes_and_nil_is_zero_filled() {
    let all: Vec<u128> = vec![
        V1::default().uuid(),
        V3::default().uuid(),
        V4::default().uuid(),
        V5::default().uuid(),
        V6::default().uuid(),
        V7::default().uuid(),
        Nil::default().uuid(),
    ];
    for v in all {
        assert_eq!(be_bytes_of(v).len(), 16);
    }
    let nil_bytes = be_bytes_of(Nil::default().uuid());
    assert!(nil_bytes.iter().all(|&b| b == 0x00));
}

#[test]
fn bytes_come_out_most_significant_first() {
    let v: u128 = 0x000102030405060708090a0b0c0d0e0f;
    let expected: Vec<u8> = (0u8..16).collect();
    assert_eq!(be_bytes_of(v), expected);
    assert_eq!(
        be_bytes_of(Uuid::NAMESPACE_DNS.as_u128()),
        Uuid::NAMESPACE_DNS.as_bytes().to_vec()
    );
}
