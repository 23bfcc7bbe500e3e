use std::fmt::Write;
use vstd::prelude::*;
use crate::text::{
    chars_of, decimal, push_all, push_decimal, push_two_digits, text_of, two_digits,
};

verus! {

/// `x` cut down to the largest `u64`.
pub open spec fn sat(x: int) -> u64 {
    if x > u64::MAX {
        u64::MAX
    } else if x < 0 {
        0
    } else {
        x as u64
    }
}

/// `a * b`, or the largest `u64` when the product does not fit.
pub fn sat_mul(a: u64, b: u64) -> (r: u64)
    ensures
        r == sat(a * b),
{
    match a.checked_mul(b) {
        Some(p) => p,
        None => u64::MAX,
    }
}

/// What a call of [`Timer::tick`] reports.
#[derive(PartialEq, Eq, Structural, Clone, Copy, Debug)]
pub enum TimerOutcome {
    /// Still counting down, or already spent on entry.
    Running,
    /// Reached zero with no repeats left.
    JustFinished,
    /// Reached zero and was started again for one of its repeats.
    Rearmed,
}

/// One countdown.
pub struct Timer {
    /// Position in the owning collection; recomputed after every change of it.
    pub id: usize,
    /// Whether this timer is the one counting down in its lane at this step.
    pub is_active: bool,
    /// Lane: `true` for the left column, `false` for the right one.
    pub left_view: bool,
    pub description: String,
    pub initial_time: u64,
    pub timeleft_secs: u64,
    /// Predicted end, in seconds since the Unix epoch; derived from the lane order.
    pub endtime: i64,
    /// A mark for the timer after which the completion action runs.
    pub action_info: String,
    /// Completion tag, used to pick a display colour.
    pub timer_type: Option<String>,
    /// Automatic restarts left after the next completion.
    pub repeat_times: u64,
}

/// The persisted part of a timer, as plain values.
pub struct Entry {
    pub left_view: bool,
    pub description: Seq<char>,
    pub initial_time: u64,
    pub timeleft_secs: u64,
    pub timer_type: Option<Seq<char>>,
    pub repeat_times: u64,
}

pub open spec fn tag_view(t: Option<String>) -> Option<Seq<char>> {
    match t {
        Some(s) => Some(s@),
        None => None,
    }
}

/// The persisted parts of a sequence of timers.
pub open spec fn entries(ts: Seq<Timer>) -> Seq<Entry> {
    ts.map_values(|t: Timer| t.entry())
}

/// A timer after one step of countdown, and what the step reports.
pub open spec fn ticked(t: Timer) -> (Timer, TimerOutcome) {
    if t.timeleft_secs == 0 {
        (t, TimerOutcome::Running)
    } else if t.timeleft_secs > 1 {
        (Timer { timeleft_secs: (t.timeleft_secs - 1) as u64, is_active: true, ..t }, TimerOutcome::Running)
    } else if t.repeat_times > 0 {
        (
            Timer {
                timeleft_secs: t.initial_time,
                repeat_times: (t.repeat_times - 1) as u64,
                is_active: false,
                ..t
            },
            TimerOutcome::Rearmed,
        )
    } else {
        (Timer { timeleft_secs: 0, is_active: false, ..t }, TimerOutcome::JustFinished)
    }
}

/// The display line of a timer whose end time reads `end_text`.
pub open spec fn formatted_text(t: Timer, end_text: Seq<char>) -> Seq<char> {
    let secs = t.timeleft_secs as nat;
    two_digits(secs / 3600) + ":"@ + two_digits((secs % 3600) / 60) + ":"@ + two_digits(
        secs % 60,
    ) + " ("@ + end_text + ")"@ + t.action_info@ + "     @"@ + decimal(t.id as nat) + ":"@
        + t.description@ + "     "@ + if t.repeat_times > 0 {
        "repeat: "@ + decimal(t.repeat_times as nat)
    } else {
        Seq::<char>::empty()
    }
}

/// Relies on `chrono::Local::now` and `DateTime::timestamp`: the current time in seconds
/// since the Unix epoch. Nothing is known of the value.
#[verifier::external_body]
pub(crate) fn now_timestamp() -> (r: i64) {
    chrono::Local::now().timestamp()
}

/// Relies on `chrono::DateTime::from_timestamp`, `with_timezone(&Local)` and `format`:
/// the instant `secs` written in the machine's time zone by `pattern`; empty when chrono
/// cannot represent the instant or the pattern cannot be written. It depends on the time
/// zone, so nothing is stated of it.
#[verifier::external_body]
fn local_time_text(secs: i64, pattern: &str) -> (r: String) {
    let mut out = String::new();
    match chrono::DateTime::from_timestamp(secs, 0) {
        Some(t) => match write!(out, "{}", t.with_timezone(&chrono::Local).format(pattern)) {
            Ok(()) => out,
            Err(_) => String::new(),
        },
        None => out,
    }
}

impl Timer {
    pub open spec fn entry(&self) -> Entry {
        Entry {
            left_view: self.left_view,
            description: self.description@,
            initial_time: self.initial_time,
            timeleft_secs: self.timeleft_secs,
            timer_type: tag_view(self.timer_type),
            repeat_times: self.repeat_times,
        }
    }

    /// A fresh, inactive timer of `timeleft_secs` seconds with no repeats.
    pub fn new(description: String, timeleft_secs: u64, left_view: bool, timer_type: Option<String>) -> (t: Timer)
        ensures
            t.id == 0,
            !t.is_active,
            t.left_view == left_view,
            t.description == description,
            t.initial_time == timeleft_secs,
            t.timeleft_secs == timeleft_secs,
            t.action_info@ == "   "@,
            t.timer_type == timer_type,
            t.repeat_times == 0,
    {
        Timer {
            id: 0,
            is_active: false,
            left_view,
            description,
            initial_time: timeleft_secs,
            timeleft_secs,
            endtime: now_timestamp(),
            action_info: String::from_str("   "),
            timer_type,
            repeat_times: 0,
        }
    }

    /// One second of countdown. A spent timer is left as it is.
    pub fn tick(&mut self) -> (r: TimerOutcome)
        ensures
            (*final(self), r) == ticked(*old(self)),
    {
        if self.timeleft_secs == 0 {
            return TimerOutcome::Running;
        }
        self.is_active = true;
        self.timeleft_secs = self.timeleft_secs - 1;
        if self.timeleft_secs != 0 {
            return TimerOutcome::Running;
        }
        self.is_active = false;
        if self.repeat_times > 0 {
            self.timeleft_secs = self.initial_time;
            self.repeat_times = self.repeat_times - 1;
            return TimerOutcome::Rearmed;
        }
        TimerOutcome::JustFinished
    }

    /// The display line, with the end time written as `end_text`.
    pub fn formatted_with(&self, end_text: &str) -> (r: String)
        ensures
            r@ == formatted_text(*self, end_text@),
    {
        let secs = self.timeleft_secs;
        let mut out: Vec<char> = Vec::new();
        push_two_digits(secs / 3600, &mut out);
        push_all(&mut out, &chars_of(":"));
        push_two_digits((secs % 3600) / 60, &mut out);
        push_all(&mut out, &chars_of(":"));
        push_two_digits(secs % 60, &mut out);
        push_all(&mut out, &chars_of(" ("));
        push_all(&mut out, &chars_of(end_text));
        push_all(&mut out, &chars_of(")"));
        push_all(&mut out, &chars_of(self.action_info.as_str()));
        push_all(&mut out, &chars_of("     @"));
        push_decimal(self.id as u64, &mut out);
        push_all(&mut out, &chars_of(":"));
        push_all(&mut out, &chars_of(self.description.as_str()));
        push_all(&mut out, &chars_of("     "));
        if self.repeat_times > 0 {
            push_all(&mut out, &chars_of("repeat: "));
            push_decimal(self.repeat_times, &mut out);
        }
        let ghost expect = formatted_text(*self, end_text@);
        assert(out@ =~= expect);
        text_of(&out)
    }

    /// The display line, with the end time in the machine's time zone.
    pub fn formatted(&self) -> (r: String)
        ensures
            exists|end_text: Seq<char>| r@ == formatted_text(*self, end_text),
    {
        let end = local_time_text(self.endtime, "%Y-%m-%d %H:%M:%S");
        self.formatted_with(end.as_str())
    }
}

/// The fields of a timer that are saved: everything but the id, the activity, the end
/// time and the mark, which are recomputed after loading.
pub struct SavedTimer {
    pub left_view: bool,
    pub description: String,
    pub initial_time: u64,
    pub timeleft_secs: u64,
    pub timer_type: Option<String>,
    pub repeat_times: u64,
}

impl SavedTimer {
    pub open spec fn entry(&self) -> Entry {
        Entry {
            left_view: self.left_view,
            description: self.description@,
            initial_time: self.initial_time,
            timeleft_secs: self.timeleft_secs,
            timer_type: tag_view(self.timer_type),
            repeat_times: self.repeat_times,
        }
    }
}

/// The persisted parts of a list of saved timers.
pub open spec fn saved_entries(ss: Seq<SavedTimer>) -> Seq<Entry> {
    ss.map_values(|s: SavedTimer| s.entry())
}

fn copy_tag(t: &Option<String>) -> (r: Option<String>)
    ensures
        tag_view(r) == tag_view(*t),
{
    match t {
        Some(s) => Some(s.clone()),
        None => None,
    }
}

impl Timer {
    /// The fields of this timer that are saved.
    pub fn to_saved(&self) -> (r: SavedTimer)
        ensures
            r.entry() == self.entry(),
    {
        SavedTimer {
            left_view: self.left_view,
            description: self.description.clone(),
            initial_time: self.initial_time,
            timeleft_secs: self.timeleft_secs,
            timer_type: copy_tag(&self.timer_type),
            repeat_times: self.repeat_times,
        }
    }

    /// A timer for saved fields; it is inactive, with id zero and the blank mark, until
    /// its list is scheduled.
    pub fn from_saved(s: SavedTimer) -> (t: Timer)
        ensures
            t.entry() == s.entry(),
            t.id == 0,
            !t.is_active,
            t.endtime == 0,
            t.action_info@ == "   "@,
    {
        Timer {
            id: 0,
            is_active: false,
            left_view: s.left_view,
            description: s.description,
            initial_time: s.initial_time,
            timeleft_secs: s.timeleft_secs,
            endtime: 0,
            action_info: String::from_str("   "),
            timer_type: s.timer_type,
            repeat_times: s.repeat_times,
        }
    }
}

/// How many timers of `ts` are in the right lane.
pub open spec fn right_lane_count(ts: Seq<Timer>) -> nat
    decreases ts.len(),
{
    if ts.len() == 0 {
        0
    } else {
        right_lane_count(ts.drop_last()) + if ts.last().left_view {
            0nat
        } else {
            1nat
        }
    }
}

/// How many timers are in the right lane.
pub fn num_rightview_timers(timers: &Vec<Timer>) -> (r: usize)
    ensures
        r == right_lane_count(timers@),
{
    let mut count: usize = 0;
    let mut i: usize = 0;
    while i < timers.len()
        invariant
            i <= timers.len(),
            count == right_lane_count(timers@.take(i as int)),
            count <= i,
        decreases timers.len() - i,
    {
        assert(timers@.take(i + 1).drop_last() =~= timers@.take(i as int));
        if !timers[i].left_view {
            count = count + 1;
        }
        i = i + 1;
    }
    assert(timers@.take(timers.len() as int) =~= timers@);
    count
}

} // verus!
