use vstd::prelude::*;

verus! {

/// Sends made, at most, before a transport failure is reported.
pub const MAX_ATTEMPTS: u32 = 3;

/// Pause, in seconds, before the second send.
pub const INITIAL_DELAY_SECS: u64 = 2;

pub open spec fn two_pow(e: nat) -> nat
    decreases e,
{
    if e == 0 {
        1
    } else {
        2 * two_pow((e - 1) as nat)
    }
}

/// After `attempts` sends that all failed in transport: the pause before the
/// next send, or `None` when the limit is reached. The pause before send k
/// (k at least 2) is 2^(k-1) seconds.
pub open spec fn pause_after_failures(attempts: nat) -> Option<nat> {
    if attempts >= MAX_ATTEMPTS {
        None
    } else {
        Some(two_pow(attempts))
    }
}

/// Number of sends made against a transport that fails every time, counting
/// from `attempts` sends already made.
pub open spec fn sends_when_always_failing(attempts: nat) -> nat
    decreases MAX_ATTEMPTS - attempts,
{
    match pause_after_failures(attempts) {
        None => attempts,
        Some(_) => sends_when_always_failing(attempts + 1),
    }
}

/// What to do after a send failed in transport.
pub enum RetryDecision {
    RetryAfter { delay_secs: u64 },
    GiveUp,
}

/// Decides, after `attempts` sends that all failed in transport, whether to
/// send again and after which pause.
pub fn after_transport_failure(attempts: u32) -> (r: RetryDecision)
    requires
        attempts >= 1,
    ensures
        pause_after_failures(attempts as nat) is None ==> r is GiveUp,
        pause_after_failures(attempts as nat) matches Some(d) ==> r == (RetryDecision::RetryAfter {
            delay_secs: d as u64,
        }),
        r matches RetryDecision::RetryAfter { delay_secs } ==> delay_secs == two_pow(
            attempts as nat,
        ),
{
    if attempts >= MAX_ATTEMPTS {
        return RetryDecision::GiveUp;
    }
    let mut delay: u64 = INITIAL_DELAY_SECS;
    let mut k: u32 = 1;
    proof {
        reveal_with_fuel(two_pow, 2);
    }
    while k < attempts
        invariant
            1 <= k <= attempts < MAX_ATTEMPTS,
            delay == two_pow(k as nat),
        decreases attempts - k,
    {
        proof {
            assert(two_pow(k as nat) <= 4) by {
                reveal_with_fuel(two_pow, 3);
            }
        }
        delay = delay * 2;
        k = k + 1;
    }
    RetryDecision::RetryAfter { delay_secs: delay }
}

/// Against a transport that fails on every send, exactly `MAX_ATTEMPTS` sends
/// are made, and the pause before send k (k from 2 to the limit), which follows
/// k-1 failed sends, is 2^(k-1) seconds.
pub proof fn persistent_failure_is_bounded()
    ensures
        sends_when_always_failing(1) == MAX_ATTEMPTS,
        forall|a: nat|
            1 <= a < MAX_ATTEMPTS ==> #[trigger] pause_after_failures(a) == Some(two_pow(a)),
        forall|a: nat| a >= MAX_ATTEMPTS ==> #[trigger] pause_after_failures(a) is None,
{
    reveal_with_fuel(sends_when_always_failing, 4);
}

} // verus!
