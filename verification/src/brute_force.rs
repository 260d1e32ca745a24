//! The per-address counter of failed attempts and the wall that blocks an
//! address once its counter reaches the allowed maximum.
//!
//! The counter lives in the cache under the address, with an expiry; what
//! the cache returned is handed in here as `Option<u32>` (`None` where no
//! count could be read), and what to write back is handed out.

use vstd::prelude::*;
use crate::http::{Rejection, too_many_requests_error_response, is_rejection, STATUS_TOO_MANY_REQUESTS, BruteForceFlag};

verus! {

/// The count to store after one more failed attempt, given the count read
/// (`None` when none could be read); `None` when nothing is written.
pub open spec fn next_attempt_count_spec(current: Option<u32>, max: u32) -> Option<u32> {
    match current {
        Some(times) => if times < max {
            Some((times + 1) as u32)
        } else {
            None
        },
        None => Some(1),
    }
}

/// Records one failed attempt: the count to write back (with the block
/// duration as its expiry), or `None` when the count is left as it is.
pub fn next_attempt_count(current: Option<u32>, max: u32) -> (res: Option<u32>)
    ensures
        res == next_attempt_count_spec(current, max),
{
    match current {
        Some(times) => if times < max {
            Some(times + 1)
        } else {
            None
        },
        None => Some(1),
    }
}

/// The count that an address holds after a failed attempt.
pub open spec fn count_after_attempt(current: Option<u32>, max: u32) -> Option<u32> {
    match next_attempt_count_spec(current, max) {
        Some(c) => Some(c),
        None => current,
    }
}

/// The wall stops an address whose count reached the maximum.
pub open spec fn wall_blocks(count: Option<u32>, max: u32) -> bool {
    match count {
        Some(times) => times >= max,
        None => false,
    }
}

/// What the wall does with a request.
pub enum WallDecision {
    /// The request goes on.
    Pass,
    /// The request is refused.
    Reject(Rejection),
}

/// The refusal of a blocked address.
pub open spec fn is_blocked_rejection(r: Rejection) -> bool {
    is_rejection(
        r,
        STATUS_TOO_MANY_REQUESTS,
        "Too many requests."@,
        "Too many requests! Your IP its blocked!"@,
        BruteForceFlag::NotCounted,
    )
}

/// Decides whether a request passes the wall, given the count read for its
/// address (`None` when none could be read).
pub fn brute_force_wall(count: Option<u32>, max: u32) -> (res: WallDecision)
    ensures
        wall_blocks(count, max) <==> res is Reject,
        res matches WallDecision::Reject(r) ==> is_blocked_rejection(r),
{
    match count {
        Some(times) => if times >= max {
            WallDecision::Reject(
                too_many_requests_error_response(
                    "Too many requests.",
                    "Too many requests! Your IP its blocked!",
                ),
            )
        } else {
            WallDecision::Pass
        },
        None => WallDecision::Pass,
    }
}

/// The count held after `n` failed attempts from an address with no count.
pub open spec fn count_after_failures(n: nat, max: u32) -> Option<u32>
    decreases n,
{
    if n == 0 {
        None
    } else {
        count_after_attempt(count_after_failures((n - 1) as nat, max), max)
    }
}

/// After `n > 0` failures from a clean address the count is `n` while `n`
/// stays within `max`, and then holds at `max` (at one when `max` is zero).
pub proof fn lemma_count_after_failures(n: nat, max: u32)
    requires
        n > 0,
    ensures
        count_after_failures(n, max) == Some(
            (if n <= max {
                n
            } else if max == 0 {
                1
            } else {
                max as nat
            }) as u32,
        ),
    decreases n,
{
    assert(count_after_failures(0, max) == None::<u32>);
    if n > 1 {
        lemma_count_after_failures((n - 1) as nat, max);
        let prev = count_after_failures((n - 1) as nat, max);
        assert(count_after_failures(n, max) == count_after_attempt(prev, max));
    } else {
        assert(count_after_failures(1, max) == count_after_attempt(None, max));
    }
}

/// A failed attempt never lowers the count of an address, and never raises a
/// count that is within the maximum beyond it (nor beyond one).
pub proof fn failed_attempt_is_monotone_and_bounded(current: Option<u32>, max: u32)
    ensures
        count_after_attempt(current, max) is Some,
        current matches Some(c) ==> c <= count_after_attempt(current, max)->0,
        (current matches Some(c) ==> c <= max) ==> (count_after_attempt(current, max)->0 <= max
            || count_after_attempt(current, max)->0 == 1),
{
}

/// An address is blocked by the wall exactly from its `max`-th failed
/// attempt on (from its first when `max` is zero); before any failure it
/// passes.
pub proof fn wall_blocks_after_max_failures(n: nat, max: u32)
    ensures
        n == 0 ==> !wall_blocks(count_after_failures(n, max), max),
        n > 0 ==> (wall_blocks(count_after_failures(n, max), max) <==> n >= max),
{
    if n > 0 {
        lemma_count_after_failures(n, max);
    }
}

} // verus!
