//! Bounded status polling: each read either finds the data ready, asks for
//! another read after a delay, or gives up once the read budget is spent.
use vstd::prelude::*;

verus! {

/// What follows one status read of a bounded poll.
#[derive(Debug, Clone, Copy, PartialEq, Eq, Structural)]
pub enum PollStep {
    /// The data is ready
    Ready,
    /// Wait, then read again; this many reads are left
    Retry(usize),
    /// The read budget is spent
    TimedOut,
}

/// Decision after one status read, with `left` reads in the budget (this
/// one included).
pub open spec fn spec_poll_step(left: usize, ready: bool) -> PollStep {
    if ready {
        PollStep::Ready
    } else if left <= 1 {
        PollStep::TimedOut
    } else {
        PollStep::Retry((left - 1) as usize)
    }
}

/// Decide after one status read, with `left` reads in the budget (this one
/// included).
pub fn poll_step(left: usize, ready: bool) -> (r: PollStep)
    ensures
        r == spec_poll_step(left, ready),
        ready ==> r == PollStep::Ready,
        !ready && left <= 1 ==> r == PollStep::TimedOut,
        !ready && left > 1 ==> r == PollStep::Retry((left - 1) as usize),
{
    if ready {
        PollStep::Ready
    } else if left <= 1 {
        PollStep::TimedOut
    } else {
        PollStep::Retry(left - 1)
    }
}

/// Budget left after `k` reads that did not find the data ready, starting
/// with `n` reads, or `None` once the poll has given up.
pub open spec fn budget_after(n: usize, k: nat) -> Option<usize>
    decreases k,
{
    if k == 0 {
        Some(n)
    } else {
        match budget_after(n, (k - 1) as nat) {
            Some(left) => match spec_poll_step(left, false) {
                PollStep::Retry(rest) => Some(rest),
                _ => None,
            },
            None => None,
        }
    }
}

/// A poll with a budget of `n >= 1` reads gives up exactly at the `n`th
/// read that does not find the data ready: before it `n - k` reads are
/// left, after it none.
pub proof fn lemma_poll_budget(n: usize, k: nat)
    requires
        n >= 1,
    ensures
        k < n ==> budget_after(n, k) == Some((n - k) as usize),
        k >= n ==> budget_after(n, k) is None,
    decreases k,
{
    if k > 0 {
        lemma_poll_budget(n, (k - 1) as nat);
    }
}

} // verus!
