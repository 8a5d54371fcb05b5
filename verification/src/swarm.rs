//! The stagnation rule of the particle-swarm tuner.
//!
//! After every epoch the tuner reports whether the swarm's best cost
//! improved.  Once `PATIENCE` epochs in a row have passed without an
//! improvement, the swarm is re-seeded and the count starts over.

use vstd::prelude::*;

verus! {

/// Epochs without improvement that trigger a re-seed.
pub const PATIENCE: u32 = 15;

/// The number of epochs at the end of `history` that brought no improvement.
pub open spec fn trailing_stall(history: Seq<bool>) -> nat
    decreases history.len(),
{
    if history.len() == 0 {
        0
    } else if history.last() {
        0
    } else {
        1 + trailing_stall(history.drop_last())
    }
}

/// The stall count after one more epoch, before any re-seed.
pub open spec fn counted(stalled: nat, improved: bool) -> nat {
    if improved {
        0
    } else {
        stalled + 1
    }
}

/// Whether the epoch reported as `improved` triggers a re-seed.
pub open spec fn triggers_reseed(stalled: nat, improved: bool) -> bool {
    counted(stalled, improved) >= PATIENCE
}

/// The stall count carried into the next epoch.
pub open spec fn next_stalled(stalled: nat, improved: bool) -> nat {
    if triggers_reseed(stalled, improved) {
        0
    } else {
        counted(stalled, improved)
    }
}

/// Counts the epochs since the swarm's best cost last improved.
pub struct StagnationMonitor {
    epochs_since_improvement: u32,
}

impl StagnationMonitor {
    /// Epochs since the last improvement or re-seed.
    pub closed spec fn stalled(&self) -> nat {
        self.epochs_since_improvement as nat
    }

    /// The count stays below the patience: it is reset when it reaches it.
    pub open spec fn wf(&self) -> bool {
        self.stalled() < PATIENCE
    }

    /// A monitor at the start of the run.
    pub fn new() -> (m: Self)
        ensures
            m.wf(),
            m.stalled() == 0,
    {
        StagnationMonitor { epochs_since_improvement: 0 }
    }

    /// Epochs since the last improvement or re-seed.
    pub fn epochs_since_improvement(&self) -> (n: u32)
        ensures
            n == self.stalled(),
    {
        self.epochs_since_improvement
    }

    /// Records one epoch; returns whether the swarm must be re-seeded now.
    pub fn observe(&mut self, improved: bool) -> (reseed: bool)
        requires
            old(self).wf(),
        ensures
            final(self).wf(),
            reseed == triggers_reseed(old(self).stalled(), improved),
            final(self).stalled() == next_stalled(old(self).stalled(), improved),
            improved ==> !reseed && final(self).stalled() == 0,
            !improved ==> (reseed <==> old(self).stalled() + 1 == 15),
            !improved && !reseed ==> final(self).stalled() == old(self).stalled() + 1,
            reseed ==> final(self).stalled() == 0,
    {
        if improved {
            self.epochs_since_improvement = 0;
        } else {
            self.epochs_since_improvement = self.epochs_since_improvement + 1;
        }
        if self.epochs_since_improvement >= PATIENCE {
            self.epochs_since_improvement = 0;
            true
        } else {
            false
        }
    }
}

/// Over any run, the monitor holds the length of the current stall modulo
/// `PATIENCE`, and an epoch triggers a re-seed exactly when it ends a stall
/// whose length is a positive multiple of `PATIENCE`: a re-seed comes after
/// every `PATIENCE` epochs in a row without improvement, and at no other time.
pub proof fn lemma_monitor_tracks_history(history: Seq<bool>, improved: bool)
    ensures
        next_stalled(trailing_stall(history) % (PATIENCE as nat), improved) == trailing_stall(
            history.push(improved),
        ) % (PATIENCE as nat),
        triggers_reseed(trailing_stall(history) % (PATIENCE as nat), improved) == (trailing_stall(
            history.push(improved),
        ) > 0 && trailing_stall(history.push(improved)) % (PATIENCE as nat) == 0),
{
    let h2 = history.push(improved);
    assert(h2.drop_last() =~= history);
    let t = trailing_stall(history);
    let p = PATIENCE as nat;
    if !improved {
        assert(trailing_stall(h2) == t + 1);
        let r = t % p;
        assert(t == p * (t / p) + r) by (nonlinear_arith)
            requires
                p > 0,
                r == t % p,
        ;
        assert(0 <= r < p) by (nonlinear_arith)
            requires
                p > 0,
                r == t % p,
        ;
        if r + 1 >= p {
            assert(r + 1 == p);
            assert(t + 1 == p * (t / p + 1));
            assert((t + 1) % p == 0) by (nonlinear_arith)
                requires
                    p > 0,
                    t + 1 == p * (t / p + 1),
                    t / p + 1 >= 0,
            ;
        } else {
            assert(t + 1 == p * (t / p) + (r + 1));
            assert((t + 1) % p == r + 1) by (nonlinear_arith)
                requires
                    p > 0,
                    t + 1 == p * (t / p) + (r + 1),
                    0 <= r + 1 < p,
                    t / p >= 0,
            ;
        }
    } else {
        assert(trailing_stall(h2) == 0);
    }
}

/// `trailing_stall` is the length of the final run of epochs without
/// improvement: every one of the last `trailing_stall(h)` epochs brought none,
/// and the epoch just before that run (if there is one) did improve.
pub proof fn lemma_trailing_stall_is_final_run(history: Seq<bool>)
    ensures
        trailing_stall(history) <= history.len(),
        forall|i: int|
            history.len() - trailing_stall(history) <= i < history.len() ==> !#[trigger] history[i],
        trailing_stall(history) < history.len() ==> history[history.len() - trailing_stall(history)
            - 1],
    decreases history.len(),
{
    if history.len() > 0 && !history.last() {
        let prev = history.drop_last();
        lemma_trailing_stall_is_final_run(prev);
        assert forall|i: int|
            history.len() - trailing_stall(history) <= i < history.len() implies !#[trigger] history[i] by {
            if i < history.len() - 1 {
                assert(history[i] == prev[i]);
            }
        }
        if trailing_stall(history) < history.len() {
            assert(history[history.len() - trailing_stall(history) - 1] == prev[prev.len()
                - trailing_stall(prev) - 1]);
        }
    }
}

/// The re-seed period is fifteen epochs: fourteen stalled epochs carry on,
/// the fifteenth in a row re-seeds and starts the count over, and an
/// improving epoch never re-seeds.
pub proof fn lemma_reseed_period(stalled: nat, improved: bool)
    requires
        stalled < PATIENCE,
    ensures
        improved ==> !triggers_reseed(stalled, improved) && next_stalled(stalled, improved) == 0,
        !improved && stalled + 1 < 15 ==> !triggers_reseed(stalled, improved) && next_stalled(
            stalled,
            improved,
        ) == stalled + 1,
        !improved && stalled + 1 == 15 ==> triggers_reseed(stalled, improved) && next_stalled(
            stalled,
            improved,
        ) == 0,
        PATIENCE == 15,
{
}

/// A fresh monitor agrees with an empty history.
pub proof fn lemma_monitor_starts_clean()
    ensures
        trailing_stall(Seq::<bool>::empty()) % (PATIENCE as nat) == 0,
{
}

} // verus!
