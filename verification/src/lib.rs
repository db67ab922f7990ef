//! Generation of RFC 4122 version-1 (time-based) UUIDs.
//!
//! A version-1 identifier packs a 60-bit count of 100-nanosecond ticks since
//! the start of the Gregorian calendar, a clock sequence that disambiguates
//! identifiers issued within one tick, and a 48-bit node identifier, into 16
//! bytes stamped with the version and variant bits.

#![allow(unused_imports)]
use vstd::prelude::*;

pub mod clock;
pub mod codec;
pub mod node;
pub mod state;

pub use codec::ParseError;
pub use codec::Uuid;
pub use state::StorageView;
pub use state::UuidStorage;

use codec::with_variant;
use codec::with_version;
use state::step;

verus! {

/// The 16 bytes of a version-1 identifier before the version and variant
/// bits are stamped: timestamp low, mid and high words big-endian, the
/// clock sequence big-endian, then the node id verbatim.
pub open spec fn raw_v1_bytes(t: u64, cs: u16, node: Seq<u8>) -> Seq<u8> {
    seq![
        ((t >> 24) & 0xFF) as u8,
        ((t >> 16) & 0xFF) as u8,
        ((t >> 8) & 0xFF) as u8,
        (t & 0xFF) as u8,
        ((t >> 40) & 0xFF) as u8,
        ((t >> 32) & 0xFF) as u8,
        ((t >> 56) & 0xFF) as u8,
        ((t >> 48) & 0xFF) as u8,
        (cs >> 8) as u8,
        (cs & 0xFF) as u8,
    ] + node
}

/// The finished 16 bytes of a version-1 identifier: the raw layout with the
/// variant bits and then the version nibble stamped in.
pub open spec fn v1_bytes(t: u64, cs: u16, node: Seq<u8>) -> Seq<u8> {
    with_version(with_variant(raw_v1_bytes(t, cs, node)), 1)
}

/// One byte of a big-endian rendering: the bits of `x` from `shift` up.
fn byte_of(x: u64, shift: u64) -> (r: u8)
    requires
        shift < 64,
    ensures
        r == ((x >> shift) & 0xFF) as u8,
{
    proof {
        assert((x >> shift) & 0xFF < 256) by (bit_vector);
    }
    ((x >> shift) & 0xFF) as u8
}

/// Generates a version-1 identifier from the given state and an externally
/// supplied timestamp: applies one generation step to the state and stamps
/// the issued triple into the identifier's byte layout.
pub fn new_v1_at(storage: &mut UuidStorage, time_now: u64) -> (r: Uuid)
    ensures
        final(storage)@ == step(old(storage)@, time_now),
        r@ == v1_bytes(time_now, final(storage)@.clock_seq, final(storage)@.node_id),
{
    let (time_now, clock_seq, hardware_addr) = storage.get_state_at(time_now);

    let mut buffer = [0u8; 16];
    buffer[0] = byte_of(time_now, 24);
    buffer[1] = byte_of(time_now, 16);
    buffer[2] = byte_of(time_now, 8);
    buffer[3] = byte_of(time_now, 0);
    buffer[4] = byte_of(time_now, 40);
    buffer[5] = byte_of(time_now, 32);
    buffer[6] = byte_of(time_now, 56);
    buffer[7] = byte_of(time_now, 48);
    proof {
        assert(clock_seq >> 8 < 256) by (bit_vector);
        assert(clock_seq & 0xFF < 256) by (bit_vector);
        assert(time_now >> 0 == time_now) by (bit_vector);
        assert((time_now & 0xFF) as u8 == ((time_now >> 0) & 0xFF) as u8);
    }
    buffer[8] = (clock_seq >> 8) as u8;
    buffer[9] = (clock_seq & 0xFF) as u8;
    buffer[10] = hardware_addr[0];
    buffer[11] = hardware_addr[1];
    buffer[12] = hardware_addr[2];
    buffer[13] = hardware_addr[3];
    buffer[14] = hardware_addr[4];
    buffer[15] = hardware_addr[5];
    proof {
        assert(buffer@ =~= raw_v1_bytes(time_now, clock_seq, hardware_addr@));
    }

    let mut uuid = match Uuid::from_bytes(buffer.as_slice()) {
        Ok(u) => u,
        Err(_) => vstd::pervasive::unreached(),
    };
    uuid.set_variant();
    uuid.set_version(1);
    uuid
}

/// Generates a version-1 identifier against the wall clock. The caller owns
/// the state and keeps calls to this function mutually exclusive; each call
/// reads and mutates the state as one unit and then formats the bytes
/// outside that critical section.
pub fn new_v1(storage: &mut UuidStorage) -> (r: Uuid)
    ensures
        final(storage)@ == step(old(storage)@, final(storage)@.last_time),
        r@ == v1_bytes(
            final(storage)@.last_time,
            final(storage)@.clock_seq,
            final(storage)@.node_id,
        ),
{
    let (secs, nanos) = clock::now_unix();
    let time_now = clock::ticks_since_gregorian(secs, nanos);
    new_v1_at(storage, time_now)
}

/// Every generated identifier is structurally a version-1 UUID: the high
/// nibble of byte 6 is `0001` and the top two bits of byte 8 are `10`,
/// whatever the timestamp, clock sequence and node id were.
pub proof fn lemma_version_variant_bits(t: u64, cs: u16, node: Seq<u8>)
    ensures
        v1_bytes(t, cs, node)[6] >> 4 == 1,
        v1_bytes(t, cs, node)[8] >> 6 == 2,
{
    let raw = raw_v1_bytes(t, cs, node);
    let b6 = raw[6];
    let b8 = raw[8];
    assert(((b6 & 0x0F) | (1u8 << 4)) >> 4 == 1) by (bit_vector);
    assert(((b8 & 0x3F) | 0x80) >> 6 == 2) by (bit_vector);
    assert(v1_bytes(t, cs, node)[6] == (b6 & 0x0F) | (1u8 << 4));
    assert(v1_bytes(t, cs, node)[8] == (b8 & 0x3F) | 0x80);
}

} // verus!
