//! Restart backoff: exponential growth from a base delay, a cap, and a
//! jitter of a quarter of the capped value either way that is derived from
//! the attempt number alone.

use std::collections::hash_map::DefaultHasher;
use std::hash::Hasher;
use vstd::arithmetic::power::{
    lemma_pow0, lemma_pow1, lemma_pow_adds, lemma_pow_increases, lemma_pow_positive, pow,
};
use vstd::bytes::{spec_u32_to_le_bytes, u32_to_le_bytes};
use vstd::prelude::*;
use vstd::std_specs::hash::DefaultHasherAdditionalSpecFns;

verus! {

/// Delay before the first restart attempt, in milliseconds.
pub const MCP_BASE_RESTART_DELAY_MS: u64 = 1000;

/// No restart waits longer than this, in milliseconds.
pub const MCP_MAX_RESTART_DELAY_MS: u64 = 30000;

/// Factor by which the delay grows from one attempt to the next.
pub const MCP_BACKOFF_MULTIPLIER: u64 = 2;

/// No restart waits less than this, in milliseconds.
pub const MCP_MIN_RESTART_DELAY_MS: u64 = 100;

/// The delay of `attempt` before jitter: base times multiplier to the
/// power `attempt - 1`, cut off at the cap.
pub open spec fn capped_delay(attempt: nat) -> int
    recommends
        attempt >= 1,
{
    let grown = MCP_BASE_RESTART_DELAY_MS as int * pow(
        MCP_BACKOFF_MULTIPLIER as int,
        (attempt - 1) as nat,
    );
    if grown < MCP_MAX_RESTART_DELAY_MS as int {
        grown
    } else {
        MCP_MAX_RESTART_DELAY_MS as int
    }
}

/// Half the width of the jitter window: a quarter of the capped delay.
pub open spec fn jitter_range(attempt: nat) -> int {
    capped_delay(attempt) / 4
}

/// The signed offset that `hash` selects inside the jitter window.
pub open spec fn jitter_offset(attempt: nat, hash: u64) -> int {
    let range = jitter_range(attempt);
    if range > 0 {
        (hash as int) % (2 * range) - range
    } else {
        0
    }
}

/// The delay of `attempt` when the jitter is drawn from `hash`.
pub open spec fn delay_from_hash(attempt: nat, hash: u64) -> int {
    let jittered = capped_delay(attempt) + jitter_offset(attempt, hash);
    let bounded = if jittered < MCP_MAX_RESTART_DELAY_MS as int {
        jittered
    } else {
        MCP_MAX_RESTART_DELAY_MS as int
    };
    if bounded > MCP_MIN_RESTART_DELAY_MS as int {
        bounded
    } else {
        MCP_MIN_RESTART_DELAY_MS as int
    }
}

/// The hash that seeds the jitter of `attempt`: the standard hasher run
/// over the four little-endian bytes of the attempt number.
pub open spec fn attempt_hash(attempt: u32) -> u64 {
    DefaultHasher::spec_finish(seq![spec_u32_to_le_bytes(attempt)])
}

/// The restart delay of `attempt`, in milliseconds.
pub open spec fn backoff_delay(attempt: u32) -> int {
    delay_from_hash(attempt as nat, attempt_hash(attempt))
}

/// The capped delay never leaves the interval from the base to the cap,
/// and never shrinks as attempts go up.
pub proof fn lemma_capped_delay_bounds(attempt: nat)
    requires
        attempt >= 1,
    ensures
        MCP_BASE_RESTART_DELAY_MS <= capped_delay(attempt) <= MCP_MAX_RESTART_DELAY_MS,
        capped_delay(attempt) <= capped_delay(attempt + 1),
{
    let e = (attempt - 1) as nat;
    lemma_pow_positive(2, e);
    lemma_pow_increases(2, e, e + 1);
}

/// Whatever the hash, the delay stays between the floor and the cap and
/// within a quarter of the capped delay.
pub proof fn law_delay_stays_in_bounds(attempt: nat, hash: u64)
    requires
        attempt >= 1,
    ensures
        MCP_MIN_RESTART_DELAY_MS <= delay_from_hash(attempt, hash) <= MCP_MAX_RESTART_DELAY_MS,
        capped_delay(attempt) - jitter_range(attempt) <= delay_from_hash(attempt, hash),
        delay_from_hash(attempt, hash) <= capped_delay(attempt) + jitter_range(attempt),
{
    lemma_capped_delay_bounds(attempt);
}

/// The capped delay of `attempt`, computed by repeated multiplication
/// that stops as soon as the cap is reached.
pub fn capped_backoff_delay(attempt: u32) -> (delay: u64)
    requires
        attempt >= 1,
    ensures
        delay == capped_delay(attempt as nat),
        MCP_BASE_RESTART_DELAY_MS <= delay <= MCP_MAX_RESTART_DELAY_MS,
{
    let mut grown: u64 = MCP_BASE_RESTART_DELAY_MS;
    let mut step: u32 = 1;
    proof {
        lemma_pow0(2);
    }
    while step < attempt && grown < MCP_MAX_RESTART_DELAY_MS
        invariant
            1 <= step <= attempt,
            grown == 1000 * pow(2, (step - 1) as nat),
            grown < 2 * MCP_MAX_RESTART_DELAY_MS,
        decreases attempt - step,
    {
        proof {
            lemma_pow_adds(2, (step - 1) as nat, 1);
            lemma_pow1(2);
        }
        grown = grown * MCP_BACKOFF_MULTIPLIER;
        step = step + 1;
    }
    proof {
        lemma_capped_delay_bounds(attempt as nat);
        if step < attempt {
            lemma_pow_increases(2, (step - 1) as nat, (attempt - 1) as nat);
        }
    }
    if grown < MCP_MAX_RESTART_DELAY_MS {
        grown
    } else {
        MCP_MAX_RESTART_DELAY_MS
    }
}

/// The restart delay of `attempt` for a given jitter seed.
pub fn backoff_delay_with_hash(attempt: u32, hash: u64) -> (delay: u64)
    requires
        attempt >= 1,
    ensures
        delay == delay_from_hash(attempt as nat, hash),
        MCP_MIN_RESTART_DELAY_MS <= delay <= MCP_MAX_RESTART_DELAY_MS,
        capped_delay(attempt as nat) - jitter_range(attempt as nat) <= delay,
        delay <= capped_delay(attempt as nat) + jitter_range(attempt as nat),
{
    let capped: u64 = capped_backoff_delay(attempt);
    let range: u64 = capped / 4;
    // `low` is the capped delay with the whole window taken off; the hash
    // then adds back a share of twice the window.
    let jittered: u64 = if range > 0 {
        let low: u64 = capped - range;
        low + hash % (range * 2)
    } else {
        capped
    };
    let bounded: u64 = if jittered < MCP_MAX_RESTART_DELAY_MS {
        jittered
    } else {
        MCP_MAX_RESTART_DELAY_MS
    };
    if bounded > MCP_MIN_RESTART_DELAY_MS {
        bounded
    } else {
        MCP_MIN_RESTART_DELAY_MS
    }
}

/// The jitter seed of `attempt`: the standard hasher, freshly made, fed the
/// attempt number and finished.
pub fn jitter_seed(attempt: u32) -> (hash: u64)
    ensures
        hash == attempt_hash(attempt),
{
    let mut hasher = DefaultHasher::new();
    let bytes = u32_to_le_bytes(attempt);
    hasher.write(bytes.as_slice());
    hasher.finish()
}

/// Calculates the delay before restart attempt `attempt` (counted from 1),
/// in milliseconds: exponential growth, capped, with a jitter that depends
/// on the attempt number alone, and never under the floor.
pub fn calculate_exponential_backoff_delay(attempt: u32) -> (delay: u64)
    requires
        attempt >= 1,
    ensures
        delay == backoff_delay(attempt),
        MCP_MIN_RESTART_DELAY_MS <= delay <= MCP_MAX_RESTART_DELAY_MS,
        capped_delay(attempt as nat) - jitter_range(attempt as nat) <= delay,
        delay <= capped_delay(attempt as nat) + jitter_range(attempt as nat),
{
    let hash = jitter_seed(attempt);
    backoff_delay_with_hash(attempt, hash)
}

} // verus!
