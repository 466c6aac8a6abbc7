//! The fixed tick of the event loop. Times are whole nanoseconds.

use vstd::prelude::*;

verus! {

/// How long the loop may still wait for a key before the next tick is due:
/// what is left of the tick, and nothing once it has passed.
pub open spec fn remaining(tick_rate: nat, elapsed: nat) -> nat {
    if elapsed >= tick_rate {
        0
    } else {
        (tick_rate - elapsed) as nat
    }
}

pub fn poll_timeout(tick_rate: u128, elapsed: u128) -> (timeout: u128)
    ensures
        timeout == remaining(tick_rate as nat, elapsed as nat),
{
    if elapsed >= tick_rate {
        0
    } else {
        tick_rate - elapsed
    }
}

/// Whether the tick is due, `elapsed` after the last one.
pub fn tick_due(tick_rate: u128, elapsed: u128) -> (due: bool)
    ensures
        due == (elapsed >= tick_rate),
{
    elapsed >= tick_rate
}

/// The wait never outlasts the tick, and a tick is due exactly when no wait
/// is left.
pub proof fn lemma_wait_within_tick(tick_rate: nat, elapsed: nat)
    ensures
        remaining(tick_rate, elapsed) <= tick_rate,
        elapsed + remaining(tick_rate, elapsed) >= tick_rate,
        remaining(tick_rate, elapsed) == 0 <==> elapsed >= tick_rate,
{
}

} // verus!
