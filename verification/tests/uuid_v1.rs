use uuid_v1::new_v1;
use uuid_v1::new_v1_at;
use uuid_v1::ParseError;
use uuid_v1::Uuid;
use uuid_v1::UuidStorage;

const NODE: [u8; 6] = [0xAA, 0xBB, 0xCC, 0xDD, 0xEE, 0xFF];

#[test]
fn decode_rejects_empty_input() {
    let r = Uuid::from_bytes(&[]);
    match r {
        Err(ParseError::InvalidLength(n)) => assert_eq!(n, 0),
        Ok(_) => panic!("empty input must be rejected"),
    }
}

#[test]
fn decode_rejects_short_input() {
    let bytes = [7u8; 15];
    let r = Uuid::from_bytes(&bytes);
    match r {
        Err(ParseError::InvalidLength(n)) => assert_eq!(n, 15),
        Ok(_) => panic!("15 bytes must be rejected"),
    }
}

#[test]
fn decode_rejects_long_input() {
    let bytes = [7u8; 17];
    let r = Uuid::from_bytes(&bytes);
    match r {
        Err(ParseError::InvalidLength(n)) => assert_eq!(n, 17),
        Ok(_) => panic!("17 bytes must be rejected"),
    }
}

#[test]
fn decode_round_trips_16_bytes() {
    let bytes: Vec<u8> = (0u8..16).map(|i| i.wrapping_mul(17).wrapping_add(3)).collect();
    let u = Uuid::from_bytes(&bytes).expect("16 bytes must decode");
    assert_eq!(u.as_bytes(), &bytes[..]);
}

#[test]
fn to_string_known_value() {
    let bytes: Vec<u8> = (0u8..16).collect();
    let u = Uuid::from_bytes(&bytes).unwrap();
    assert_eq!(u.to_string(), "00010203-0405-0607-0809-0a0b0c0d0e0f");
}

#[test]
fn to_string_all_ff() {
    let bytes = [0xFFu8; 16];
    let u = Uuid::from_bytes(&bytes).unwrap();
    assert_eq!(u.to_string(), "ffffffff-ffff-ffff-ffff-ffffffffffff");
}

#[test]
fn to_string_canonical_format() {
    let mut storage = UuidStorage::new();
    let s = new_v1(&mut storage).to_string();
    assert_eq!(s.len(), 36);
    for (i, c) in s.chars().enumerate() {
        if i == 8 || i == 13 || i == 18 || i == 23 {
            assert_eq!(c, '-');
        } else {
            assert!(c.is_ascii_hexdigit() && !c.is_ascii_uppercase());
        }
    }
}

#[test]
fn generated_version_and_variant_bits() {
    let mut storage = UuidStorage::new();
    for _ in 0..8 {
        let u = new_v1(&mut storage);
        let b = u.as_bytes();
        assert_eq!(b[6] >> 4, 0b0001);
        assert_eq!(b[8] >> 6, 0b10);
    }
}

#[test]
fn timestamp_fields_big_endian_layout() {
    let t: u64 = 0x0DEA_DBEE_F123_4567;
    let mut storage = UuidStorage::from_parts(0x1234, NODE);
    let u = new_v1_at(&mut storage, t);
    let b = u.as_bytes();
    // time_low: bits 0..32, big-endian.
    assert_eq!(b[0], (t >> 24) as u8);
    assert_eq!(b[1], (t >> 16) as u8);
    assert_eq!(b[2], (t >> 8) as u8);
    assert_eq!(b[3], t as u8);
    // time_mid: bits 32..48, big-endian.
    assert_eq!(b[4], (t >> 40) as u8);
    assert_eq!(b[5], (t >> 32) as u8);
    // time_hi: bits 48..60 under the version nibble.
    assert_eq!(b[6], ((t >> 56) as u8 & 0x0F) | 0x10);
    assert_eq!(b[7], (t >> 48) as u8);
    // clock seq big-endian under the variant bits; no bump on a fresh state.
    assert_eq!(b[8], (0x12 & 0x3F) | 0x80);
    assert_eq!(b[9], 0x34);
    // node id verbatim.
    assert_eq!(&b[10..16], &NODE);
}

#[test]
fn same_tick_bumps_clock_seq_by_one() {
    let t: u64 = 0x0123_4567_89AB_CDE;
    let mut storage = UuidStorage::from_parts(0x1234, NODE);
    let u1 = new_v1_at(&mut storage, t);
    let u2 = new_v1_at(&mut storage, t);
    let b1 = u1.as_bytes();
    let b2 = u2.as_bytes();
    // Both time fields decode to t.
    assert_eq!(&b1[0..8], &b2[0..8]);
    // Node ids identical.
    assert_eq!(&b1[10..16], &b2[10..16]);
    // Clock sequences differ by exactly one.
    assert_eq!(b1[8], b2[8]);
    assert_eq!(b1[9], 0x34);
    assert_eq!(b2[9], 0x35);
}

#[test]
fn clock_seq_wraps_at_sixteen_bits() {
    let t: u64 = 7;
    let mut storage = UuidStorage::from_parts(0xFFFF, NODE);
    let u1 = new_v1_at(&mut storage, t);
    let u2 = new_v1_at(&mut storage, t);
    let b1 = u1.as_bytes();
    let b2 = u2.as_bytes();
    assert_eq!(b1[8], 0xBF);
    assert_eq!(b1[9], 0xFF);
    assert_eq!(b2[8], 0x80);
    assert_eq!(b2[9], 0x00);
}

#[test]
fn rapid_same_tick_identifiers_are_distinct() {
    let t: u64 = 0x0BEE_FCAF_E012_345;
    let mut storage = UuidStorage::from_parts(0, NODE);
    let mut seen = std::collections::HashSet::new();
    for _ in 0..1000 {
        let u = new_v1_at(&mut storage, t);
        assert!(seen.insert(u.to_string()));
    }
}

#[test]
fn node_id_consistent_within_one_state() {
    let mut storage = UuidStorage::new();
    let first: Vec<u8> = new_v1(&mut storage).as_bytes()[10..16].to_vec();
    assert_eq!(first.len(), 6);
    for _ in 0..8 {
        let u = new_v1(&mut storage);
        assert_eq!(&u.as_bytes()[10..16], &first[..]);
    }
}

#[test]
fn ticks_start_at_gregorian_epoch_offset() {
    assert_eq!(uuid_v1::clock::ticks_since_gregorian(0, 0), 122192928000000000);
}

#[test]
fn ticks_count_hundred_nanosecond_intervals() {
    assert_eq!(
        uuid_v1::clock::ticks_since_gregorian(1, 150),
        122192928000000000 + 10_000_001
    );
}

#[test]
fn ticks_saturate_on_huge_seconds() {
    assert_eq!(uuid_v1::clock::ticks_since_gregorian(18446744070, 0), u64::MAX);
}

#[test]
fn parse_mac_lowercase() {
    let r = uuid_v1::node::parse_mac(b"aa:bb:cc:dd:ee:ff");
    assert_eq!(r, Some([0xAA, 0xBB, 0xCC, 0xDD, 0xEE, 0xFF]));
}

#[test]
fn parse_mac_mixed_case_and_digits() {
    let r = uuid_v1::node::parse_mac(b"00:1A:2b:3C:4d:9F");
    assert_eq!(r, Some([0x00, 0x1A, 0x2B, 0x3C, 0x4D, 0x9F]));
}

#[test]
fn parse_mac_rejects_wrong_length() {
    assert_eq!(uuid_v1::node::parse_mac(b"aa:bb:cc:dd:ee:f"), None);
    assert_eq!(uuid_v1::node::parse_mac(b""), None);
    assert_eq!(uuid_v1::node::parse_mac(b"aa:bb:cc:dd:ee:ff:00"), None);
}

#[test]
fn parse_mac_rejects_bad_separator() {
    assert_eq!(uuid_v1::node::parse_mac(b"aa-bb-cc-dd-ee-ff"), None);
    assert_eq!(uuid_v1::node::parse_mac(b"aa:bb:cc:dd:ee=ff"), None);
}

#[test]
fn parse_mac_rejects_bad_digit() {
    assert_eq!(uuid_v1::node::parse_mac(b"ga:bb:cc:dd:ee:ff"), None);
    assert_eq!(uuid_v1::node::parse_mac(b"aa:bb:cc:dd:ee:f!"), None);
}

#[test]
fn injected_node_id_appears_verbatim() {
    let node = [1u8, 2, 3, 4, 5, 6];
    let mut storage = UuidStorage::from_parts(0, node);
    let u = new_v1_at(&mut storage, 42);
    assert_eq!(&u.as_bytes()[10..16], &node);
}

#[test]
fn wall_clock_identifiers_are_distinct() {
    let mut storage = UuidStorage::new();
    let mut seen = std::collections::HashSet::new();
    for _ in 0..100 {
        let u = new_v1(&mut storage);
        assert!(seen.insert(u.to_string()));
    }
}

#[test]
fn get_state_at_returns_the_issued_triple() {
    let mut storage = UuidStorage::from_parts(100, NODE);
    let (t1, cs1, node1) = storage.get_state_at(50);
    assert_eq!(t1, 50);
    assert_eq!(cs1, 100);
    assert_eq!(node1, NODE);
    // Same tick again: the clock sequence is bumped by one.
    let (t2, cs2, node2) = storage.get_state_at(50);
    assert_eq!(t2, 50);
    assert_eq!(cs2, 101);
    assert_eq!(node2, NODE);
    // A regressing clock also bumps.
    let (_, cs3, _) = storage.get_state_at(49);
    assert_eq!(cs3, 102);
    // A tick that moves forward does not.
    let (_, cs4, _) = storage.get_state_at(51);
    assert_eq!(cs4, 102);
}

#[test]
fn get_state_reads_a_plausible_wall_clock() {
    let mut storage = UuidStorage::default();
    let (t, _, node) = storage.get_state();
    // Ticks of any time after 1970 lie beyond the epoch offset.
    assert!(t >= 122192928000000000);
    assert_eq!(node.len(), 6);
}
