use vstd::prelude::*;
use crate::configuration::{
    lemma_scheduled_entries, opt_index, same_but_timers, scheduled, Configuration,
};
use crate::timer::{entries, now_timestamp, ticked, Timer, TimerOutcome};
use crate::ui_states::{action_named, TimerAction};

verus! {

/// What one step of the clock did.
#[derive(PartialEq, Eq, Structural, Clone, Copy, Debug)]
pub struct TickReport {
    /// What the ticked timer of the left lane reported; `None` when no timer there had time left.
    pub left: Option<TimerOutcome>,
    /// The same for the right lane.
    pub right: Option<TimerOutcome>,
    /// The completion action to carry out now, or `NoAction`.
    pub action: TimerAction,
}

/// The first of the first `n` timers of lane `lane` with time left, or -1.
pub open spec fn first_busy_in(ts: Seq<Timer>, lane: bool, n: int) -> int
    decreases n,
{
    if n <= 0 {
        -1
    } else {
        let p = first_busy_in(ts, lane, n - 1);
        if p >= 0 {
            p
        } else if ts[n - 1].left_view == lane && ts[n - 1].timeleft_secs > 0 {
            n - 1
        } else {
            -1
        }
    }
}

/// The timer that counts down in lane `lane`: the first one there with time left, or -1.
pub open spec fn first_busy(ts: Seq<Timer>, lane: bool) -> int {
    first_busy_in(ts, lane, ts.len() as int)
}

/// Every timer made inactive.
pub open spec fn deactivated(ts: Seq<Timer>) -> Seq<Timer> {
    ts.map_values(|t: Timer| Timer { is_active: false, ..t })
}

/// `ts` with the timer at `k` ticked, when `k` is a position.
pub open spec fn tick_at(ts: Seq<Timer>, k: int) -> Seq<Timer> {
    if k >= 0 {
        ts.update(k, ticked(ts[k]).0)
    } else {
        ts
    }
}

/// What ticking the timer at `k` reports, when `k` is a position.
pub open spec fn outcome_at(ts: Seq<Timer>, k: int) -> Option<TimerOutcome> {
    if k >= 0 {
        Some(ticked(ts[k]).1)
    } else {
        None
    }
}

/// `ts` with the timer at `k` moved to the end.
pub open spec fn to_end(ts: Seq<Timer>, k: int) -> Seq<Timer> {
    ts.remove(k).push(ts[k])
}

pub open spec fn finished(o: Option<TimerOutcome>) -> bool {
    o == Some(TimerOutcome::JustFinished)
}

/// One step of the clock on a list of timers: all are made inactive, the first timer
/// with time left in each lane is ticked, and, when `move_finished` holds, a timer that
/// just finished moves to the end (of two, the later one first). Gives the new list and
/// what the two lanes reported.
pub open spec fn tick_step(ts: Seq<Timer>, move_finished: bool) -> (
    Seq<Timer>,
    Option<TimerOutcome>,
    Option<TimerOutcome>,
) {
    let ts1 = deactivated(ts);
    let l = first_busy(ts1, true);
    let r = first_busy(ts1, false);
    let ts2 = tick_at(tick_at(ts1, l), r);
    let lo = outcome_at(ts1, l);
    let ro = outcome_at(ts1, r);
    let lf = move_finished && finished(lo);
    let rf = move_finished && finished(ro);
    let ts3 = if lf && rf {
        if l < r {
            to_end(to_end(ts2, r), l)
        } else {
            to_end(to_end(ts2, l), r)
        }
    } else if lf {
        to_end(ts2, l)
    } else if rf {
        to_end(ts2, r)
    } else {
        ts2
    };
    (ts3, lo, ro)
}

pub open spec fn all_done(ts: Seq<Timer>) -> bool {
    forall|i: int| 0 <= i < ts.len() ==> #[trigger] ts[i].timeleft_secs == 0
}

/// The action that a step triggers: the configured one, when a lane just finished a
/// timer and no timer has time left any more.
pub open spec fn triggered_action(
    action: Seq<char>,
    after: Seq<Timer>,
    lo: Option<TimerOutcome>,
    ro: Option<TimerOutcome>,
) -> TimerAction {
    if (finished(lo) || finished(ro)) && all_done(after) {
        action_named(action)
    } else {
        TimerAction::NoAction
    }
}

/// A step on timers that have all run out: the persisted state stays, no timer is
/// active and no lane reports anything.
pub open spec fn idle_step(before: Seq<Timer>, after: Seq<Timer>, r: TickReport) -> bool {
    all_done(before) ==> {
        &&& entries(after) == entries(before)
        &&& forall|i: int| 0 <= i < after.len() ==> !(#[trigger] after[i]).is_active
        &&& r.left is None
        &&& r.right is None
    }
}

/// No two active timers share a lane.
pub open spec fn one_active_per_lane(ts: Seq<Timer>) -> bool {
    forall|i: int, j: int|
        0 <= i < ts.len() && 0 <= j < ts.len() && i != j && (#[trigger] ts[i]).is_active
            && (#[trigger] ts[j]).is_active ==> ts[i].left_view != ts[j].left_view
}

proof fn lemma_first_busy_bounds(ts: Seq<Timer>, lane: bool, n: int)
    requires
        0 <= n <= ts.len(),
    ensures
        -1 <= first_busy_in(ts, lane, n) < n,
        first_busy_in(ts, lane, n) >= 0 ==> ts[first_busy_in(ts, lane, n)].left_view == lane
            && ts[first_busy_in(ts, lane, n)].timeleft_secs > 0,
        first_busy_in(ts, lane, n) < 0 ==> forall|j: int|
            0 <= j < n && (#[trigger] ts[j]).left_view == lane ==> ts[j].timeleft_secs == 0,
    decreases n,
{
    if n > 0 {
        lemma_first_busy_bounds(ts, lane, n - 1);
    }
}

proof fn lemma_first_busy_stable(ts: Seq<Timer>, lane: bool, m: int, n: int)
    requires
        0 <= m <= n <= ts.len(),
        first_busy_in(ts, lane, m) >= 0,
    ensures
        first_busy_in(ts, lane, n) == first_busy_in(ts, lane, m),
    decreases n,
{
    if n > m {
        lemma_first_busy_stable(ts, lane, m, n - 1);
    }
}

proof fn lemma_to_end_keeps_lanes(ts: Seq<Timer>, k: int)
    requires
        0 <= k < ts.len(),
        one_active_per_lane(ts),
    ensures
        one_active_per_lane(to_end(ts, k)),
{
    let s = to_end(ts, k);
    assert forall|i: int, j: int|
        0 <= i < s.len() && 0 <= j < s.len() && i != j && (#[trigger] s[i]).is_active
            && (#[trigger] s[j]).is_active implies s[i].left_view != s[j].left_view by {
        let si = if i < k {
            i
        } else if i < s.len() - 1 {
            i + 1
        } else {
            k
        };
        let sj = if j < k {
            j
        } else if j < s.len() - 1 {
            j + 1
        } else {
            k
        };
        assert(s[i] == ts[si]);
        assert(s[j] == ts[sj]);
    }
}

/// The first timer of lane `lane` with time left.
fn find_busy(ts: &Vec<Timer>, lane: bool) -> (r: Option<usize>)
    ensures
        opt_index(r) == first_busy(ts@, lane),
        r matches Some(k) ==> k < ts.len(),
{
    let mut i: usize = 0;
    while i < ts.len()
        invariant
            i <= ts.len(),
            first_busy_in(ts@, lane, i as int) == -1,
        decreases ts.len() - i,
    {
        if ts[i].left_view == lane && ts[i].timeleft_secs > 0 {
            proof {
                lemma_first_busy_stable(ts@, lane, i + 1, ts@.len() as int);
            }
            return Some(i);
        }
        i = i + 1;
    }
    None
}

fn tick_one(ts: &mut Vec<Timer>, k: Option<usize>) -> (r: Option<TimerOutcome>)
    requires
        k matches Some(i) ==> i < old(ts).len(),
    ensures
        final(ts)@ == tick_at(old(ts)@, opt_index(k)),
        r == outcome_at(old(ts)@, opt_index(k)),
{
    match k {
        Some(i) => {
            let mut t = ts.remove(i);
            let o = t.tick();
            ts.insert(i, t);
            assert(ts@ =~= tick_at(old(ts)@, i as int));
            Some(o)
        },
        None => None,
    }
}

fn move_to_end(ts: &mut Vec<Timer>, k: usize)
    requires
        k < old(ts).len(),
    ensures
        final(ts)@ == to_end(old(ts)@, k as int),
{
    let t = ts.remove(k);
    ts.push(t);
}

impl Configuration {
    /// The position of the timer that the next step counts down in the left lane
    /// (`left`) or the right one.
    pub fn current_timer(&self, left: bool) -> (r: Option<usize>)
        ensures
            opt_index(r) == first_busy(self.timers@, left),
            r matches Some(k) ==> k < self.timers@.len(),
    {
        find_busy(&self.timers, left)
    }

    fn deactivate_all(&mut self)
        ensures
            final(self).timers@ == deactivated(old(self).timers@),
            same_but_timers(*final(self), *old(self)),
    {
        let ghost c0 = *self;
        let n = self.timers.len();
        let mut i: usize = 0;
        while i < n
            invariant
                i <= n,
                n == c0.timers@.len(),
                self.timers@.len() == n,
                same_but_timers(*self, c0),
                forall|j: int| 0 <= j < i ==> #[trigger] self.timers@[j] == (Timer { is_active: false, ..c0.timers@[j] }),
                forall|j: int| i <= j < n ==> #[trigger] self.timers@[j] == c0.timers@[j],
            decreases n - i,
        {
            let mut t = self.timers.remove(i);
            t.is_active = false;
            self.timers.insert(i, t);
            i = i + 1;
        }
        assert(self.timers@ =~= deactivated(c0.timers@));
    }

    /// One step of the clock as of `now`: in each lane the first timer with time left
    /// counts down one second and is the only active one; a timer that just finished
    /// moves to the end when `move_finished_timer` is set; then ids, end times and marks
    /// are recomputed.
    pub fn tick_all_at(&mut self, now: i64) -> (r: TickReport)
        ensures
            ({
                let (after, lo, ro) = tick_step(old(self).timers@, old(self).move_finished_timer);
                &&& r.left == lo
                &&& r.right == ro
                &&& r.action == triggered_action(old(self).action_timeout@, after, lo, ro)
                &&& scheduled(after, final(self).timers@, now, old(self).action_timeout@, false)
            }),
            same_but_timers(*final(self), *old(self)),
            one_active_per_lane(final(self).timers@),
            idle_step(old(self).timers@, final(self).timers@, r),
    {
        let ghost ts0 = self.timers@;
        self.deactivate_all();
        let ghost ts1 = self.timers@;
        let l = find_busy(&self.timers, true);
        let r = find_busy(&self.timers, false);
        proof {
            lemma_first_busy_bounds(ts1, true, ts1.len() as int);
            lemma_first_busy_bounds(ts1, false, ts1.len() as int);
        }
        let lo = tick_one(&mut self.timers, l);
        let ghost ts_l = self.timers@;
        let ro = tick_one(&mut self.timers, r);
        let ghost ts2 = self.timers@;
        proof {
            assert(outcome_at(ts_l, opt_index(r)) == outcome_at(ts1, opt_index(r)));
            assert forall|i: int| 0 <= i < ts2.len() && (#[trigger] ts2[i]).is_active implies
                (i == opt_index(l) && ts2[i].left_view) || (i == opt_index(r) && !ts2[i].left_view) by {
            }
        }
        let lf = self.move_finished_timer && lo == Some(TimerOutcome::JustFinished);
        let rf = self.move_finished_timer && ro == Some(TimerOutcome::JustFinished);
        match (l, r) {
            (Some(li), Some(ri)) => {
                if lf && rf {
                    if li < ri {
                        move_to_end(&mut self.timers, ri);
                        proof { lemma_to_end_keeps_lanes(ts2, ri as int); }
                        move_to_end(&mut self.timers, li);
                        proof { lemma_to_end_keeps_lanes(to_end(ts2, ri as int), li as int); }
                    } else {
                        move_to_end(&mut self.timers, li);
                        proof { lemma_to_end_keeps_lanes(ts2, li as int); }
                        move_to_end(&mut self.timers, ri);
                        proof { lemma_to_end_keeps_lanes(to_end(ts2, li as int), ri as int); }
                    }
                } else if lf {
                    move_to_end(&mut self.timers, li);
                    proof { lemma_to_end_keeps_lanes(ts2, li as int); }
                } else if rf {
                    move_to_end(&mut self.timers, ri);
                    proof { lemma_to_end_keeps_lanes(ts2, ri as int); }
                }
            },
            (Some(li), None) => {
                if lf {
                    move_to_end(&mut self.timers, li);
                    proof { lemma_to_end_keeps_lanes(ts2, li as int); }
                }
            },
            (None, Some(ri)) => {
                if rf {
                    move_to_end(&mut self.timers, ri);
                    proof { lemma_to_end_keeps_lanes(ts2, ri as int); }
                }
            },
            (None, None) => {},
        }
        let ghost ts3 = self.timers@;
        assert(ts3 == tick_step(ts0, self.move_finished_timer).0);
        let done = self.check_all_timers_done();
        let configured = TimerAction::from_name(self.action_timeout.as_str());
        let action = if (lo == Some(TimerOutcome::JustFinished) || ro == Some(TimerOutcome::JustFinished)) && done {
            configured
        } else {
            TimerAction::NoAction
        };
        self.refresh(now, false);
        proof {
            let fin = self.timers@;
            lemma_scheduled_entries(ts3, fin, now, old(self).action_timeout@, false);
            if all_done(ts0) {
                assert forall|j: int| 0 <= j < ts1.len() && (#[trigger] ts1[j]).left_view == true implies ts1[j].timeleft_secs == 0 by {
                    assert(ts1[j].timeleft_secs == ts0[j].timeleft_secs);
                }
                assert(opt_index(l) < 0) by {
                    if opt_index(l) >= 0 {
                        assert(ts1[opt_index(l)].timeleft_secs == ts0[opt_index(l)].timeleft_secs);
                    }
                }
                assert(opt_index(r) < 0) by {
                    if opt_index(r) >= 0 {
                        assert(ts1[opt_index(r)].timeleft_secs == ts0[opt_index(r)].timeleft_secs);
                    }
                }
                assert(ts3 == ts1);
                assert(entries(ts1) =~= entries(ts0));
                assert forall|i: int| 0 <= i < fin.len() implies !(#[trigger] fin[i]).is_active by {
                    assert(fin[i].is_active == ts3[i].is_active);
                }
            }
            assert forall|i: int, j: int|
                0 <= i < fin.len() && 0 <= j < fin.len() && i != j && (#[trigger] fin[i]).is_active
                    && (#[trigger] fin[j]).is_active implies fin[i].left_view != fin[j].left_view by {
                assert(fin[i].is_active == ts3[i].is_active);
                assert(fin[j].is_active == ts3[j].is_active);
            }
        }
        TickReport { left: lo, right: ro, action }
    }

    /// One step of the clock as of the current time; see [`Configuration::tick_all_at`].
    pub fn tick_all(&mut self) -> (r: TickReport)
        ensures
            ({
                let (after, lo, ro) = tick_step(old(self).timers@, old(self).move_finished_timer);
                &&& r.left == lo
                &&& r.right == ro
                &&& r.action == triggered_action(old(self).action_timeout@, after, lo, ro)
                &&& exists|now: i64| #[trigger]
                    scheduled(after, final(self).timers@, now, old(self).action_timeout@, false)
            }),
            same_but_timers(*final(self), *old(self)),
            one_active_per_lane(final(self).timers@),
            idle_step(old(self).timers@, final(self).timers@, r),
    {
        let now = now_timestamp();
        self.tick_all_at(now)
    }
}

} // verus!
