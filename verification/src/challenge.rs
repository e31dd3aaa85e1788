//! The time-based challenge: the 30-second time-step counter, big-endian in
//! eight bytes, that the device needs to compute a time-based code.

use vstd::prelude::*;
use crate::endian::lemma_u64_be_bytes_round_trip;
use crate::endian::push_u64_be;
use crate::endian::spec_u64_from_be_bytes;
use crate::endian::spec_u64_to_be_bytes;

verus! {

/// The eight-byte challenge for a timestamp in whole seconds since the Unix
/// epoch: the timestamp divided by 30, big-endian.
pub open spec fn spec_challenge(secs: u64) -> Seq<u8> {
    spec_u64_to_be_bytes(((secs as int) / 30) as u64)
}

/// Relies on std::time::SystemTime: `now` and `duration_since` give the
/// wall-clock time as a duration since the Unix epoch, read here in whole
/// seconds. A clock standing before the epoch reads as zero.
#[verifier::external_body]
fn now_unix_secs() -> u64 {
    match std::time::SystemTime::now().duration_since(std::time::SystemTime::UNIX_EPOCH) {
        Ok(d) => d.as_secs(),
        Err(_) => 0,
    }
}

/// The challenge for the given timestamp in whole seconds since the Unix
/// epoch, or for the wall clock now where none is given.
pub fn time_challenge(timestamp: Option<u64>) -> (r: Vec<u8>)
    ensures
        r@.len() == 8,
        timestamp matches Some(t) ==> r@ == spec_challenge(t),
        exists|t: u64| r@ == spec_challenge(t),
{
    let secs = match timestamp {
        Some(t) => t,
        None => now_unix_secs(),
    };
    let step = secs / 30;
    let mut buf: Vec<u8> = Vec::new();
    push_u64_be(&mut buf, step);
    proof {
        assert(buf@ == spec_challenge(secs));
    }
    buf
}

/// Within one 30-second window the challenge does not move: a timestamp on a
/// window boundary and any timestamp less than 30 seconds after it give the
/// same challenge.
pub proof fn lemma_challenge_same_window(t: u64, d: u64)
    requires
        t % 30 == 0,
        d < 30,
        t + d <= u64::MAX,
    ensures
        spec_challenge((t + d) as u64) == spec_challenge(t),
{
    assert((t as int + d as int) / 30 == (t as int) / 30) by (nonlinear_arith)
        requires
            t as int % 30 == 0,
            0 <= d < 30,
            t as int >= 0,
    ;
}

/// Thirty seconds on, the challenge moves by exactly one: read back as a
/// big-endian integer it is one greater than before.
pub proof fn lemma_challenge_next_window(t: u64)
    requires
        t + 30 <= u64::MAX,
    ensures
        spec_u64_from_be_bytes(spec_challenge((t + 30) as u64)) == spec_u64_from_be_bytes(
            spec_challenge(t),
        ) + 1,
{
    let a = ((t as int) / 30) as u64;
    let b = (((t + 30) as int) / 30) as u64;
    assert((t as int + 30) / 30 == (t as int) / 30 + 1) by (nonlinear_arith)
        requires
            t as int >= 0,
    ;
    lemma_u64_be_bytes_round_trip(a);
    lemma_u64_be_bytes_round_trip(b);
}

} // verus!
