//! The process-wide generation state: clock sequence, node id and the last
//! timestamp issued, with the clock-regression bump that keeps identifiers
//! from one tick apart.

use vstd::prelude::*;
use crate::clock::now_unix;
use crate::clock::ticks_since_gregorian;
use crate::node::init_hardware_addr;

verus! {

/// The mathematical model of a [`UuidStorage`].
pub ghost struct StorageView {
    /// The clock sequence that the next identifier will carry.
    pub clock_seq: u16,
    /// The node id carried by every identifier of this state.
    pub node_id: Seq<u8>,
    /// The most recent timestamp issued.
    pub last_time: u64,
}

/// The clock sequence after one bump, wrapping at the top of the 16-bit
/// range.
pub open spec fn bump(cs: u16) -> u16 {
    if cs == 0xFFFF {
        0
    } else {
        (cs + 1) as u16
    }
}

/// The state after one generation call that observed the timestamp `t`:
/// the clock sequence is bumped exactly when `t` does not move forward
/// (the clock went backward, or two calls landed in the same tick), `t`
/// becomes the last timestamp, and the node id never changes.
pub open spec fn step(v: StorageView, t: u64) -> StorageView {
    StorageView {
        clock_seq: if t <= v.last_time {
            bump(v.clock_seq)
        } else {
            v.clock_seq
        },
        node_id: v.node_id,
        last_time: t,
    }
}

/// The generation state: created once per process, guarded by the caller's
/// mutual exclusion, read and mutated as a unit by each generation call.
pub struct UuidStorage {
    clock_seq: u16,
    hardware_addr: [u8; 6],
    last_time: u64,
}

impl View for UuidStorage {
    type V = StorageView;

    closed spec fn view(&self) -> StorageView {
        StorageView {
            clock_seq: self.clock_seq,
            node_id: self.hardware_addr@,
            last_time: self.last_time,
        }
    }
}

impl UuidStorage {
    /// Fresh state: a random clock sequence, the first network interface's
    /// hardware address as node id (six random bytes when none can be
    /// read), and no timestamp issued yet.
    pub fn new() -> (r: UuidStorage)
        ensures
            r@.last_time == 0,
            r@.node_id.len() == 6,
    {
        let clock_seq = init_clock_seq();
        let mut buffer = [0u8; 6];
        init_hardware_addr(&mut buffer);
        UuidStorage { clock_seq, hardware_addr: buffer, last_time: 0 }
    }

    /// State with a chosen clock sequence and node id, and no timestamp
    /// issued yet: lets an application or a test inject both.
    pub fn from_parts(clock_seq: u16, node_id: [u8; 6]) -> (r: UuidStorage)
        ensures
            r@ == (StorageView { clock_seq, node_id: node_id@, last_time: 0 }),
    {
        UuidStorage { clock_seq, hardware_addr: node_id, last_time: 0 }
    }

    /// One generation step against an externally supplied timestamp:
    /// applies [`step`] to the state and returns the issued triple of
    /// timestamp, clock sequence and node id.
    pub fn get_state_at(&mut self, time_now: u64) -> (r: (u64, u16, [u8; 6]))
        ensures
            final(self)@ == step(old(self)@, time_now),
            r.0 == time_now,
            r.1 == final(self)@.clock_seq,
            r.2@ == final(self)@.node_id,
    {
        if time_now <= self.last_time {
            self.clock_seq = if self.clock_seq == 0xFFFF {
                0
            } else {
                self.clock_seq + 1
            };
        }
        self.last_time = time_now;
        (time_now, self.clock_seq, self.hardware_addr)
    }

    /// One generation step against the wall clock: reads the current time,
    /// converts it to Gregorian-epoch ticks and applies [`step`]. The
    /// returned timestamp is whatever the clock gave; everything else is
    /// pinned to it.
    pub fn get_state(&mut self) -> (r: (u64, u16, [u8; 6]))
        ensures
            final(self)@ == step(old(self)@, r.0),
            r.1 == final(self)@.clock_seq,
            r.2@ == final(self)@.node_id,
    {
        let (secs, nanos) = now_unix();
        let time_now = ticks_since_gregorian(secs, nanos);
        self.get_state_at(time_now)
    }
}

impl core::default::Default for UuidStorage {
    /// Same as [`UuidStorage::new`].
    fn default() -> (r: UuidStorage)
        ensures
            r@.last_time == 0,
            r@.node_id.len() == 6,
    {
        UuidStorage::new()
    }
}

/// Relies on rand's `random`: a uniformly random 16-bit clock sequence.
/// Nothing can be promised of a random value.
#[verifier::external_body]
fn init_clock_seq() -> u16 {
    rand::random::<u16>()
}

/// Two generation steps that observe the same timestamp issue clock
/// sequences that differ by exactly one, modulo wraparound.
pub proof fn lemma_same_tick_bump(v: StorageView, t: u64)
    ensures
        step(step(v, t), t).clock_seq == bump(step(v, t).clock_seq),
        step(step(v, t), t).clock_seq != step(v, t).clock_seq,
{
}

/// A generation step issues a (timestamp, clock sequence) pair that differs
/// from the pair the previous step issued, so identifiers from consecutive
/// calls under the same mutual exclusion never coincide while the node id
/// is constant.
pub proof fn lemma_successive_pairs_distinct(v: StorageView, t: u64)
    ensures
        t != v.last_time || step(v, t).clock_seq != v.clock_seq,
{
}

} // verus!
