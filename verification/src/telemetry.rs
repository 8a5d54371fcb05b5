//! Sliding windows of timestamped samples behind the terminal dashboard.
//!
//! The chart keeps seven series in lockstep (four position traces and three
//! angle traces).  Each recorded tick appends one `(time, value)` sample to
//! every series, and once a series holds more than `max_points` samples the
//! oldest one is dropped from all of them.

use std::collections::VecDeque;
use vstd::prelude::*;

verus! {

/// The most recent `max` items of `history` (all of it when it is shorter).
pub open spec fn recent<A>(history: Seq<A>, max: nat) -> Seq<A> {
    if history.len() > max {
        history.skip(history.len() - max)
    } else {
        history
    }
}

/// A window never holds more than `max` items, and it holds every item when
/// the history is no longer than that.
pub proof fn lemma_recent_len<A>(history: Seq<A>, max: nat)
    ensures
        recent(history, max).len() == if history.len() > max { max } else { history.len() },
        history.len() <= max ==> recent(history, max) == history,
{
}

/// Appending to a window and trimming it again gives the window of the
/// longer history: a chart that is fed one sample per tick always shows
/// exactly the last `max` samples of everything it was ever fed.
pub proof fn lemma_recent_push<A>(history: Seq<A>, item: A, max: nat)
    ensures
        recent(recent(history, max).push(item), max) == recent(history.push(item), max),
{
    let w = recent(history, max);
    let lhs = recent(w.push(item), max);
    let rhs = recent(history.push(item), max);
    assert(lhs.len() == rhs.len());
    assert forall|i: int| 0 <= i < lhs.len() implies lhs[i] == rhs[i] by {
        if history.len() > max {
            assert(w.len() == max);
        }
    }
    assert(lhs =~= rhs);
}

/// `window` is what a window of size `max` must show after `item` is
/// appended to a window that showed `before`: the newest items, ending with
/// `item`, as many as fit.  Stated without `recent`: the length is
/// `min(before.len() + 1, max)`, the contents are the tail of
/// `before.push(item)` of that length, and a window that holds anything ends
/// with the item just appended.
pub open spec fn shows_latest<A>(before: Seq<A>, item: A, window: Seq<A>, max: nat) -> bool {
    let full = before.push(item);
    &&& window.len() == (if full.len() <= max { full.len() } else { max })
    &&& window == full.subrange(full.len() - window.len(), full.len() as int)
    &&& max > 0 ==> window.len() > 0 && window.last() == item
    &&& before.len() == max && max > 0 ==> window == full.drop_first()
}

/// A window is a suffix of its history: its last `min(len, max)` items, so
/// the newest item of a non-empty history is always shown when `max > 0`.
pub proof fn lemma_recent_is_suffix<A>(history: Seq<A>, max: nat)
    ensures
        ({
            let n = if history.len() <= max { history.len() } else { max };
            recent(history, max) == history.subrange(history.len() - n, history.len() as int)
        }),
        max > 0 && history.len() > 0 ==> recent(history, max).len() > 0 && recent(
            history,
            max,
        ).last() == history.last(),
{
    let n = if history.len() <= max { history.len() } else { max };
    assert(recent(history, max) =~= history.subrange(history.len() - n, history.len() as int));
}

/// Appending to a window that holds at most `max` items and trimming it
/// shows the latest items, ending with the one appended.
pub proof fn lemma_recent_shows_latest<A>(before: Seq<A>, item: A, max: nat)
    requires
        before.len() <= max,
    ensures
        shows_latest(before, item, recent(before.push(item), max), max),
{
    let full = before.push(item);
    let w = recent(full, max);
    lemma_recent_is_suffix(full, max);
    if before.len() == max && max > 0 {
        assert(w =~= full.drop_first());
    }
}

/// The seven traces of the dashboard.
#[derive(Clone, Copy, PartialEq, Eq, Debug)]
pub enum Series {
    TargetPos,
    TruePos,
    NoisyPos,
    CleanPos,
    TargetAngle,
    TrueAngle,
    CleanAngle,
}

/// Seven sliding windows of `(time, value)` samples that advance together.
pub struct TerminalChart<T> {
    true_pos: VecDeque<(T, T)>,
    noisy_pos: VecDeque<(T, T)>,
    clean_pos: VecDeque<(T, T)>,
    target_pos: VecDeque<(T, T)>,
    target_angle: VecDeque<(T, T)>,
    true_angle: VecDeque<(T, T)>,
    clean_angle: VecDeque<(T, T)>,
    max_points: usize,
}

impl<T: Copy> TerminalChart<T> {
    /// The samples currently held by one trace, oldest first.
    pub closed spec fn series_view(&self, s: Series) -> Seq<(T, T)> {
        match s {
            Series::TargetPos => self.target_pos@,
            Series::TruePos => self.true_pos@,
            Series::NoisyPos => self.noisy_pos@,
            Series::CleanPos => self.clean_pos@,
            Series::TargetAngle => self.target_angle@,
            Series::TrueAngle => self.true_angle@,
            Series::CleanAngle => self.clean_angle@,
        }
    }

    /// The window size the chart was made with.
    pub closed spec fn capacity(&self) -> nat {
        self.max_points as nat
    }

    /// All traces have the same length, which never exceeds the window size.
    pub open spec fn wf(&self) -> bool {
        forall|s: Series|
            #![trigger self.series_view(s)]
            self.series_view(s).len() == self.series_view(Series::TruePos).len()
                && self.series_view(s).len() <= self.capacity()
    }

    /// An empty chart whose windows hold at most `max_points` samples.
    pub fn new(max_points: usize) -> (chart: Self)
        requires
            max_points < usize::MAX,
        ensures
            chart.wf(),
            chart.capacity() == max_points,
            forall|s: Series| #[trigger] chart.series_view(s) == Seq::<(T, T)>::empty(),
    {
        TerminalChart {
            true_pos: VecDeque::with_capacity(max_points + 1),
            noisy_pos: VecDeque::with_capacity(max_points + 1),
            clean_pos: VecDeque::with_capacity(max_points + 1),
            target_pos: VecDeque::with_capacity(max_points + 1),
            target_angle: VecDeque::with_capacity(max_points + 1),
            true_angle: VecDeque::with_capacity(max_points + 1),
            clean_angle: VecDeque::with_capacity(max_points + 1),
            max_points,
        }
    }

    /// The window size.
    pub fn max_points(&self) -> (n: usize)
        ensures
            n == self.capacity(),
    {
        self.max_points
    }

    /// How many samples each trace currently holds.
    pub fn len(&self) -> (n: usize)
        requires
            self.wf(),
        ensures
            forall|s: Series| #[trigger] self.series_view(s).len() == n,
    {
        self.true_pos.len()
    }

    /// Appends one tick to every trace and drops the oldest tick once the
    /// window overflows.
    pub fn record(
        &mut self,
        time: T,
        target_p: T,
        true_p: T,
        noisy_p: T,
        clean_p: T,
        target_a: T,
        true_a: T,
        clean_a: T,
    )
        requires
            old(self).wf(),
        ensures
            final(self).wf(),
            final(self).capacity() == old(self).capacity(),
            final(self).series_view(Series::TargetPos) == recent(
                old(self).series_view(Series::TargetPos).push((time, target_p)),
                old(self).capacity(),
            ),
            final(self).series_view(Series::TruePos) == recent(
                old(self).series_view(Series::TruePos).push((time, true_p)),
                old(self).capacity(),
            ),
            final(self).series_view(Series::NoisyPos) == recent(
                old(self).series_view(Series::NoisyPos).push((time, noisy_p)),
                old(self).capacity(),
            ),
            final(self).series_view(Series::CleanPos) == recent(
                old(self).series_view(Series::CleanPos).push((time, clean_p)),
                old(self).capacity(),
            ),
            final(self).series_view(Series::TargetAngle) == recent(
                old(self).series_view(Series::TargetAngle).push((time, target_a)),
                old(self).capacity(),
            ),
            final(self).series_view(Series::TrueAngle) == recent(
                old(self).series_view(Series::TrueAngle).push((time, true_a)),
                old(self).capacity(),
            ),
            final(self).series_view(Series::CleanAngle) == recent(
                old(self).series_view(Series::CleanAngle).push((time, clean_a)),
                old(self).capacity(),
            ),
            shows_latest(
                old(self).series_view(Series::TargetPos),
                (time, target_p),
                final(self).series_view(Series::TargetPos),
                old(self).capacity(),
            ),
            shows_latest(
                old(self).series_view(Series::TruePos),
                (time, true_p),
                final(self).series_view(Series::TruePos),
                old(self).capacity(),
            ),
            shows_latest(
                old(self).series_view(Series::NoisyPos),
                (time, noisy_p),
                final(self).series_view(Series::NoisyPos),
                old(self).capacity(),
            ),
            shows_latest(
                old(self).series_view(Series::CleanPos),
                (time, clean_p),
                final(self).series_view(Series::CleanPos),
                old(self).capacity(),
            ),
            shows_latest(
                old(self).series_view(Series::TargetAngle),
                (time, target_a),
                final(self).series_view(Series::TargetAngle),
                old(self).capacity(),
            ),
            shows_latest(
                old(self).series_view(Series::TrueAngle),
                (time, true_a),
                final(self).series_view(Series::TrueAngle),
                old(self).capacity(),
            ),
            shows_latest(
                old(self).series_view(Series::CleanAngle),
                (time, clean_a),
                final(self).series_view(Series::CleanAngle),
                old(self).capacity(),
            ),
    {
        proof {
            assert(self.series_view(Series::TargetPos).len() == self.true_pos@.len());
            assert(self.series_view(Series::NoisyPos).len() == self.true_pos@.len());
            assert(self.series_view(Series::CleanPos).len() == self.true_pos@.len());
            assert(self.series_view(Series::TargetAngle).len() == self.true_pos@.len());
            assert(self.series_view(Series::TrueAngle).len() == self.true_pos@.len());
            assert(self.series_view(Series::CleanAngle).len() == self.true_pos@.len());
            assert(self.series_view(Series::TruePos).len() <= self.capacity());
        }
        self.target_pos.push_back((time, target_p));
        self.true_pos.push_back((time, true_p));
        self.noisy_pos.push_back((time, noisy_p));
        self.clean_pos.push_back((time, clean_p));
        self.target_angle.push_back((time, target_a));
        self.true_angle.push_back((time, true_a));
        self.clean_angle.push_back((time, clean_a));

        if self.true_pos.len() > self.max_points {
            self.target_pos.pop_front();
            self.true_pos.pop_front();
            self.noisy_pos.pop_front();
            self.clean_pos.pop_front();
            self.target_angle.pop_front();
            self.true_angle.pop_front();
            self.clean_angle.pop_front();
        }
        proof {
            assert(self.target_pos@ =~= recent(
                old(self).target_pos@.push((time, target_p)),
                old(self).capacity(),
            ));
            assert(self.true_pos@ =~= recent(
                old(self).true_pos@.push((time, true_p)),
                old(self).capacity(),
            ));
            assert(self.noisy_pos@ =~= recent(
                old(self).noisy_pos@.push((time, noisy_p)),
                old(self).capacity(),
            ));
            assert(self.clean_pos@ =~= recent(
                old(self).clean_pos@.push((time, clean_p)),
                old(self).capacity(),
            ));
            assert(self.target_angle@ =~= recent(
                old(self).target_angle@.push((time, target_a)),
                old(self).capacity(),
            ));
            assert(self.true_angle@ =~= recent(
                old(self).true_angle@.push((time, true_a)),
                old(self).capacity(),
            ));
            assert(self.clean_angle@ =~= recent(
                old(self).clean_angle@.push((time, clean_a)),
                old(self).capacity(),
            ));
            lemma_recent_shows_latest(old(self).target_pos@, (time, target_p), old(self).capacity());
            lemma_recent_shows_latest(old(self).true_pos@, (time, true_p), old(self).capacity());
            lemma_recent_shows_latest(old(self).noisy_pos@, (time, noisy_p), old(self).capacity());
            lemma_recent_shows_latest(old(self).clean_pos@, (time, clean_p), old(self).capacity());
            lemma_recent_shows_latest(
                old(self).target_angle@,
                (time, target_a),
                old(self).capacity(),
            );
            lemma_recent_shows_latest(old(self).true_angle@, (time, true_a), old(self).capacity());
            lemma_recent_shows_latest(
                old(self).clean_angle@,
                (time, clean_a),
                old(self).capacity(),
            );
            assert forall|s: Series|
                #![trigger self.series_view(s)]
                self.series_view(s).len() == self.series_view(Series::TruePos).len()
                    && self.series_view(s).len() <= self.capacity() by {
                match s {
                    Series::TargetPos => {},
                    Series::TruePos => {},
                    Series::NoisyPos => {},
                    Series::CleanPos => {},
                    Series::TargetAngle => {},
                    Series::TrueAngle => {},
                    Series::CleanAngle => {},
                }
            }
        }
    }

    /// The time stamp of the oldest sample shown, which is where the
    /// dashboard's time axis starts; `None` while the chart is empty.
    pub fn window_start(&self) -> (start: Option<T>)
        ensures
            start == (if self.series_view(Series::TruePos).len() > 0 {
                Some(self.series_view(Series::TruePos)[0].0)
            } else {
                None::<T>
            }),
    {
        if self.true_pos.len() > 0 {
            let first: (T, T) = self.true_pos[0];
            Some(first.0)
        } else {
            None
        }
    }

    /// A copy of one trace, oldest sample first.
    pub fn series(&self, s: Series) -> (samples: Vec<(T, T)>)
        ensures
            samples@ == self.series_view(s),
    {
        let source: &VecDeque<(T, T)> = match s {
            Series::TargetPos => &self.target_pos,
            Series::TruePos => &self.true_pos,
            Series::NoisyPos => &self.noisy_pos,
            Series::CleanPos => &self.clean_pos,
            Series::TargetAngle => &self.target_angle,
            Series::TrueAngle => &self.true_angle,
            Series::CleanAngle => &self.clean_angle,
        };
        let n: usize = source.len();
        let mut samples: Vec<(T, T)> = Vec::new();
        let mut i: usize = 0;
        while i < n
            invariant
                n == source@.len(),
                source@ == self.series_view(s),
                i <= n,
                samples@ == source@.take(i as int),
            decreases n - i,
        {
            let item: (T, T) = source[i];
            samples.push(item);
            i = i + 1;
            proof {
                assert(samples@ =~= source@.take(i as int));
            }
        }
        proof {
            assert(source@.take(n as int) =~= source@);
        }
        samples
    }
}

} // verus!
