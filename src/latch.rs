//! The counter of a countdown latch: it only goes down, and stops at zero.

use vstd::prelude::*;

verus! {

/// The count after one countdown from `n`.
pub open spec fn count_down(n: nat) -> nat {
    if n > 0 {
        (n - 1) as nat
    } else {
        0
    }
}

/// The count after `j` countdowns from `k`.
pub open spec fn count_after(k: nat, j: nat) -> nat
    decreases j,
{
    if j == 0 {
        k
    } else {
        count_down(count_after(k, (j - 1) as nat))
    }
}

/// The shared counter of a latch; the latch is open once it is zero.
pub struct LatchCount {
    count: u32,
}

impl View for LatchCount {
    type V = nat;

    closed spec fn view(&self) -> nat {
        self.count as nat
    }
}

impl LatchCount {
    pub fn new(count: u32) -> (l: LatchCount)
        ensures
            l@ == count,
    {
        LatchCount { count }
    }

    /// Takes one from the count; at zero nothing changes.
    pub fn countdown(&mut self)
        ensures
            final(self)@ == count_down(old(self)@),
    {
        if self.count > 0 {
            self.count = self.count - 1;
        }
    }

    /// Whether waiters are released: the count has reached zero.
    pub fn is_open(&self) -> (res: bool)
        ensures
            res == (self@ == 0),
    {
        self.count == 0
    }

    pub fn count(&self) -> (n: u32)
        ensures
            n == self@,
    {
        self.count
    }
}

/// A latch made with `k` opens after exactly `k` countdowns: it is closed
/// after fewer and open after `k` or more; made with zero it is open at once.
pub proof fn lemma_latch_opens_after_k(k: nat, j: nat)
    ensures
        count_after(k, j) == 0 <==> j >= k,
        count_after(0, j) == 0,
{
    lemma_count_after_exact(k, j);
    lemma_count_after_exact(0, j);
}

proof fn lemma_count_after_exact(k: nat, j: nat)
    ensures
        count_after(k, j) == (if j >= k { 0 } else { k - j }),
    decreases j,
{
    if j > 0 {
        lemma_count_after_exact(k, (j - 1) as nat);
    }
}

/// Once open, a latch stays open whatever further countdowns come.
pub proof fn lemma_latch_stays_open(k: nat, j: nat, more: nat)
    requires
        count_after(k, j) == 0,
    ensures
        count_after(k, j + more) == 0,
{
    lemma_count_after_exact(k, j);
    lemma_count_after_exact(k, j + more);
}

} // verus!
