use vstd::prelude::*;

verus! {

/// Reconnection attempts beyond this count are not retried.
pub const MAX_RECONNECT_ATTEMPTS: usize = 10;

/// The longest wait between two reconnection attempts, in seconds.
pub const MAX_BACKOFF_SECS: u64 = 60;

/// What to do after the connection dropped.
#[derive(Clone, Copy, Debug, PartialEq, Eq, Structural)]
pub enum Reconnect {
    /// Wait this many seconds, then connect again.
    Retry { delay_secs: u64 },
    /// Stop reconnecting: the connection is lost for good.
    GiveUp,
}

/// Two to the power `n`.
pub open spec fn two_pow(n: nat) -> nat
    decreases n,
{
    if n == 0 {
        1
    } else {
        2 * two_pow((n - 1) as nat)
    }
}

/// The wait before reconnection attempt number `attempts`: `min(2^attempts, 60)`.
pub open spec fn backoff_secs(attempts: nat) -> nat {
    if two_pow(attempts) < MAX_BACKOFF_SECS {
        two_pow(attempts)
    } else {
        MAX_BACKOFF_SECS as nat
    }
}

/// The decision for a given count of reconnection attempts.
pub open spec fn reconnect_decision(attempts: nat) -> Reconnect {
    if attempts > MAX_RECONNECT_ATTEMPTS {
        Reconnect::GiveUp
    } else {
        Reconnect::Retry { delay_secs: backoff_secs(attempts) as u64 }
    }
}

/// Decides, from the count of attempts made so far, whether to reconnect and
/// after how long: exponential backoff capped at a minute, and no retry at all
/// once the count passes ten.
pub fn decide(attempts: usize) -> (r: Reconnect)
    ensures
        r == reconnect_decision(attempts as nat),
        attempts > MAX_RECONNECT_ATTEMPTS <==> r is GiveUp,
        r is Retry ==> 1 <= r->delay_secs <= MAX_BACKOFF_SECS,
{
    if attempts > MAX_RECONNECT_ATTEMPTS {
        return Reconnect::GiveUp;
    }
    let mut p: u64 = 1;
    let mut i: usize = 0;
    while i < attempts
        invariant
            attempts <= MAX_RECONNECT_ATTEMPTS,
            i <= attempts,
            p == two_pow(i as nat),
            p <= 1024,
        decreases attempts - i,
    {
        assert(two_pow((i + 1) as nat) == 2 * two_pow(i as nat));
        assert(p <= 512) by {
            lemma_two_pow_monotonic(i as nat, 9);
            reveal_with_fuel(two_pow, 10);
        }
        p = p * 2;
        i += 1;
    }
    let delay: u64 = if p < MAX_BACKOFF_SECS {
        p
    } else {
        MAX_BACKOFF_SECS
    };
    proof {
        lemma_two_pow_positive(attempts as nat);
    }
    Reconnect::Retry { delay_secs: delay }
}

proof fn lemma_two_pow_positive(n: nat)
    ensures
        two_pow(n) >= 1,
    decreases n,
{
    if n > 0 {
        lemma_two_pow_positive((n - 1) as nat);
    }
}

proof fn lemma_two_pow_monotonic(a: nat, b: nat)
    requires
        a <= b,
    ensures
        two_pow(a) <= two_pow(b),
    decreases b,
{
    if a < b {
        lemma_two_pow_monotonic(a, (b - 1) as nat);
        lemma_two_pow_positive((b - 1) as nat);
    }
}

} // verus!
