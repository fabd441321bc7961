//! How long to wait before trying the transport again after it failed.

use vstd::prelude::*;

verus! {

/// The wait after the first failure.
pub const RETRY_BASE_MS: u64 = 100;

/// The longest wait.
pub const RETRY_CAP_MS: u64 = 10_000;

/// The wait before the next try after a failure that `failures` other
/// failures came before, with no success between them: it starts at
/// `RETRY_BASE_MS`, doubles with every failure, and stops growing at
/// `RETRY_CAP_MS`.
pub open spec fn retry_delay(failures: nat) -> nat
    decreases failures,
{
    if failures == 0 {
        RETRY_BASE_MS as nat
    } else if 2 * retry_delay((failures - 1) as nat) >= RETRY_CAP_MS {
        RETRY_CAP_MS as nat
    } else {
        2 * retry_delay((failures - 1) as nat)
    }
}

/// The wait never shrinks as failures add up, and lies between the base and
/// the cap.
pub proof fn retry_delay_grows_to_cap(fewer: nat, more: nat)
    requires
        fewer <= more,
    ensures
        RETRY_BASE_MS <= retry_delay(fewer) <= retry_delay(more) <= RETRY_CAP_MS,
    decreases more,
{
    if more > 0 {
        if fewer < more {
            retry_delay_grows_to_cap(fewer, (more - 1) as nat);
        } else {
            retry_delay_grows_to_cap((fewer - 1) as nat, (more - 1) as nat);
        }
    }
}

/// Once the wait has reached the cap it stays there.
proof fn retry_delay_stays_at_cap(reached: nat, later: nat)
    requires
        reached <= later,
        retry_delay(reached) == RETRY_CAP_MS,
    ensures
        retry_delay(later) == RETRY_CAP_MS,
{
    retry_delay_grows_to_cap(reached, later);
}

/// The wait in milliseconds before the next try after a failure that
/// `failures` other failures came before, with no success between them.
pub fn retry_delay_ms(failures: u32) -> (ms: u64)
    ensures
        ms == retry_delay(failures as nat),
{
    let mut ms: u64 = RETRY_BASE_MS;
    let mut counted: u32 = 0;
    while counted < failures && ms < RETRY_CAP_MS
        invariant
            counted <= failures,
            ms == retry_delay(counted as nat),
            ms <= RETRY_CAP_MS,
        decreases failures - counted,
    {
        ms = if 2 * ms >= RETRY_CAP_MS {
            RETRY_CAP_MS
        } else {
            2 * ms
        };
        counted = counted + 1;
    }
    proof {
        if counted < failures {
            retry_delay_stays_at_cap(counted as nat, failures as nat);
        }
    }
    ms
}

} // verus!
