//! What the relay writes to the replication connection: the standby status
//! update, which tells the server how far the stream has been taken in.

use crate::source::wire::{be_bytes, lemma_be_round_trip, lemma_pow256_values, take_u64};
use vstd::prelude::*;

verus! {

/// First byte `r` of a standby status update.
pub const TAG_STANDBY_STATUS: u8 = 0x72;

/// Length in bytes of a standby status update.
pub const STANDBY_STATUS_LEN: usize = 34;

/// The standby status update for `lsn` at time `timestamp`: the tag, the
/// LSN three times (written, flushed, applied), the time, and a zero byte
/// that asks for no reply.
pub open spec fn standby_status_frame(lsn: u64, timestamp: u64) -> Seq<u8> {
    seq![TAG_STANDBY_STATUS] + be_bytes(lsn as nat, 8) + be_bytes(lsn as nat, 8) + be_bytes(
        lsn as nat,
        8,
    ) + be_bytes(timestamp as nat, 8) + seq![0u8]
}

/// Appends the `n` bytes that spell `v` in network byte order.
pub fn push_be(out: &mut Vec<u8>, v: u64, n: usize)
    requires
        n <= 8,
    ensures
        final(out)@ == old(out)@ + be_bytes(v as nat, n as nat),
    decreases n,
{
    if n > 0 {
        push_be(out, v / 256, n - 1);
        out.push((v % 256) as u8);
    }
}

/// The frame is 34 bytes long, and each of its three LSN fields, read back
/// in network byte order, is the LSN it was built for.
pub proof fn lemma_standby_status_layout(lsn: u64, timestamp: u64)
    ensures
        standby_status_frame(lsn, timestamp).len() == STANDBY_STATUS_LEN,
        standby_status_frame(lsn, timestamp)[0] == TAG_STANDBY_STATUS,
        take_u64(standby_status_frame(lsn, timestamp).skip(1)) matches Ok((v, _)) && v == lsn,
        take_u64(standby_status_frame(lsn, timestamp).skip(9)) matches Ok((v, _)) && v == lsn,
        take_u64(standby_status_frame(lsn, timestamp).skip(17)) matches Ok((v, _)) && v == lsn,
        take_u64(standby_status_frame(lsn, timestamp).skip(25)) matches Ok((v, _)) && v
            == timestamp,
        standby_status_frame(lsn, timestamp)[33] == 0,
{
    lemma_pow256_values();
    lemma_be_round_trip(lsn as nat, 8);
    lemma_be_round_trip(timestamp as nat, 8);
    let f = standby_status_frame(lsn, timestamp);
    assert(f.skip(1).take(8) == be_bytes(lsn as nat, 8));
    assert(f.skip(9).take(8) == be_bytes(lsn as nat, 8));
    assert(f.skip(17).take(8) == be_bytes(lsn as nat, 8));
    assert(f.skip(25).take(8) == be_bytes(timestamp as nat, 8));
}

/// Builds the standby status update that confirms `lsn`, stamped with
/// `timestamp`, the sender's clock in microseconds since 2000-01-01.
pub fn build_standby_status_update(lsn: u64, timestamp: u64) -> (r: Vec<u8>)
    ensures
        r@ == standby_status_frame(lsn, timestamp),
        r.len() == STANDBY_STATUS_LEN,
{
    let mut out: Vec<u8> = Vec::new();
    out.push(TAG_STANDBY_STATUS);
    push_be(&mut out, lsn, 8);
    push_be(&mut out, lsn, 8);
    push_be(&mut out, lsn, 8);
    push_be(&mut out, timestamp, 8);
    out.push(0);
    proof {
        lemma_standby_status_layout(lsn, timestamp);
    }
    out
}

} // verus!
