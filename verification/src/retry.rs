//! Retry policy of the start-up and monitoring phases.

use vstd::prelude::*;

verus! {

/// Number of attempts a retried phase makes before it gives up.
pub const MAX_ATTEMPTS: u32 = 10;

/// Two to the power `n`.
pub open spec fn pow2(n: nat) -> nat
    decreases n,
{
    if n == 0 {
        1
    } else {
        2 * pow2((n - 1) as nat)
    }
}

/// Seconds to wait after the failed attempt number `attempt` (counted from zero).
pub open spec fn backoff_spec(attempt: nat) -> nat {
    60 * pow2(attempt)
}

/// Seconds to wait after the failed attempt number `attempt` (counted from zero):
/// one minute, doubled for every earlier failure.
pub fn backoff_seconds(attempt: u32) -> (seconds: u64)
    requires
        attempt < MAX_ATTEMPTS,
    ensures
        seconds == backoff_spec(attempt as nat),
{
    let mut seconds: u64 = 60;
    let mut done: u32 = 0;
    while done < attempt
        invariant
            done <= attempt,
            attempt < MAX_ATTEMPTS,
            seconds == 60 * pow2(done as nat),
        decreases attempt - done,
    {
        proof {
            lemma_pow2_small(done as nat);
        }
        seconds = seconds * 2;
        done = done + 1;
    }
    seconds
}

proof fn lemma_pow2_small(n: nat)
    requires
        n < 10,
    ensures
        pow2(n) <= 512,
{
    reveal_with_fuel(pow2, 11);
}

/// The waits after the ten attempts of a phase: one minute, doubled from
/// each attempt to the next.
pub proof fn lemma_backoff_sequence()
    ensures
        backoff_spec(0) == 60,
        backoff_spec(1) == 120,
        backoff_spec(2) == 240,
        backoff_spec(3) == 480,
        backoff_spec(4) == 960,
        backoff_spec(5) == 1920,
        backoff_spec(6) == 3840,
        backoff_spec(7) == 7680,
        backoff_spec(8) == 15360,
        backoff_spec(9) == 30720,
        forall|attempt: nat| #[trigger] backoff_spec(attempt + 1) == 2 * backoff_spec(attempt),
{
    reveal_with_fuel(pow2, 11);
    assert forall|attempt: nat| #[trigger] backoff_spec(attempt + 1) == 2 * backoff_spec(
        attempt,
    ) by {
        assert(pow2(attempt + 1) == 2 * pow2(attempt));
    }
}

} // verus!
