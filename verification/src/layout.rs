//! The persisted record layout.
//!
//! A committed receipt is stored as a bit-exact, fixed-size payload, in this
//! field order: `authority` (32 bytes), `position_mint` (32 bytes), `epoch`
//! (4 bytes little-endian), `direction` (1 byte), `tx_sig_hash` (32 bytes),
//! `slot` (8 bytes little-endian), `unix_ts` (8 bytes little-endian two's
//! complement), `bump` (1 byte) — 118 bytes in all. The substrate's own
//! header (a type discriminator) precedes the payload and is opaque here.

use vstd::prelude::*;

use crate::record::Receipt;

verus! {

/// Size of the fixed payload in bytes.
pub const PAYLOAD_LEN: usize = 32 + 32 + 4 + 1 + 32 + 8 + 8 + 1;

/// `v` in little-endian order, 4 bytes.
pub open spec fn u32_le(v: u32) -> Seq<u8> {
    seq![
        (v % 256) as u8,
        ((v / 256) % 256) as u8,
        ((v / 65536) % 256) as u8,
        ((v / 16777216) % 256) as u8,
    ]
}

/// `v` in little-endian order, 8 bytes.
pub open spec fn u64_le(v: u64) -> Seq<u8> {
    seq![
        (v % 256) as u8,
        ((v / 256) % 256) as u8,
        ((v / 65536) % 256) as u8,
        ((v / 16777216) % 256) as u8,
        ((v / 4294967296) % 256) as u8,
        ((v / 1099511627776) % 256) as u8,
        ((v / 281474976710656) % 256) as u8,
        ((v / 72057594037927936) % 256) as u8,
    ]
}

/// `v` as its 64-bit two's-complement value, in little-endian order.
pub open spec fn i64_le(v: i64) -> Seq<u8> {
    if v >= 0 {
        u64_le(v as u64)
    } else {
        u64_le(((v as int) + 0x10000000000000000) as u64)
    }
}

/// The full 118-byte payload of `rec`.
pub open spec fn payload_of(rec: Receipt) -> Seq<u8> {
    rec.authority@ + rec.position_mint@ + u32_le(rec.epoch) + seq![rec.direction]
        + rec.tx_sig_hash@ + u64_le(rec.slot) + i64_le(rec.unix_ts) + seq![rec.bump]
}

fn push_bytes32(v: &mut Vec<u8>, b: &[u8; 32])
    ensures
        final(v)@ == old(v)@ + b@,
{
    let mut i: usize = 0;
    while i < 32
        invariant
            i <= 32,
            v@ == old(v)@ + b@.take(i as int),
        decreases 32 - i,
    {
        v.push(b[i]);
        proof {
            assert(v@ =~= old(v)@ + b@.take(i + 1));
        }
        i += 1;
    }
    proof {
        assert(b@.take(32) =~= b@);
    }
}

fn push_u32_le(v: &mut Vec<u8>, x: u32)
    ensures
        final(v)@ == old(v)@ + u32_le(x),
{
    v.push((x % 256) as u8);
    v.push(((x / 256) % 256) as u8);
    v.push(((x / 65536) % 256) as u8);
    v.push(((x / 16777216) % 256) as u8);
    proof {
        assert(v@ =~= old(v)@ + u32_le(x));
    }
}

fn push_u64_le(v: &mut Vec<u8>, x: u64)
    ensures
        final(v)@ == old(v)@ + u64_le(x),
{
    v.push((x % 256) as u8);
    v.push(((x / 256) % 256) as u8);
    v.push(((x / 65536) % 256) as u8);
    v.push(((x / 16777216) % 256) as u8);
    v.push(((x / 4294967296) % 256) as u8);
    v.push(((x / 1099511627776) % 256) as u8);
    v.push(((x / 281474976710656) % 256) as u8);
    v.push(((x / 72057594037927936) % 256) as u8);
    proof {
        assert(v@ =~= old(v)@ + u64_le(x));
    }
}

fn push_i64_le(v: &mut Vec<u8>, x: i64)
    ensures
        final(v)@ == old(v)@ + i64_le(x),
{
    if x >= 0 {
        push_u64_le(v, x as u64);
    } else {
        let wide: i128 = (x as i128) + 0x10000000000000000i128;
        push_u64_le(v, wide as u64);
    }
}

impl Receipt {
    /// Size of a stored record: an 8-byte substrate discriminator followed
    /// by the fixed payload.
    pub const SPACE: usize = 8 + 32 + 32 + 4 + 1 + 32 + 8 + 8 + 1;

    /// The payload exactly as it is persisted: every field in the fixed
    /// order, integers little-endian, 118 bytes in all.
    pub fn payload_bytes(&self) -> (r: Vec<u8>)
        ensures
            r@ == payload_of(*self),
            r@.len() == PAYLOAD_LEN,
    {
        let mut v: Vec<u8> = Vec::new();
        push_bytes32(&mut v, &self.authority);
        push_bytes32(&mut v, &self.position_mint);
        push_u32_le(&mut v, self.epoch);
        v.push(self.direction);
        push_bytes32(&mut v, &self.tx_sig_hash);
        push_u64_le(&mut v, self.slot);
        push_i64_le(&mut v, self.unix_ts);
        v.push(self.bump);
        proof {
            assert(v@ =~= payload_of(*self));
        }
        v
    }
}

} // verus!
