use vstd::prelude::*;
use crate::text::{
    chars_of, decimal, parse_i32, parse_i32_spec, parse_unsigned, parse_unsigned_spec, push_all,
    push_decimal, push_signed, same_chars, signed_decimal, text_of,
};
use crate::timer::{
    entries, now_timestamp, num_rightview_timers, right_lane_count, sat, saved_entries, tag_view,
    SavedTimer, Timer,
};
use crate::timer_logic::{
    described, duration_secs, fresh_timer, parse_duration, parse_or_zero, placed, total_secs,
};
use crate::color::{color_at, color_name, names_color, AcceptedColors};
use crate::ui_states::{action_at, action_name, action_named, ConfigType, TimerAction, UiState};
use crate::utils::{
    get_initial_timer_colors, initial_timer_colors, names_unique, negated_flag, pair_views,
    reverse_bool,
};

verus! {

/// The timers and the user's settings, with the state of the settings tab.
pub struct Configuration {
    pub darkmode: bool,
    pub activecolor: String,
    /// New timers go to the front instead of the back.
    pub reverseadding: bool,
    /// A timer that runs out moves to the end of the list.
    pub move_finished_timer: bool,
    /// Name of what the machine does once every timer has run out.
    pub action_timeout: String,
    /// Pomodoro lengths, in minutes.
    pub pomodoro_time: u64,
    pub pomodoro_smallbreak: u64,
    pub pomodoro_bigbreak: u64,
    pub timers: Vec<Timer>,
    /// Completion tags and their display colours, each name once (`names_unique`): a map
    /// from tag to colour, kept as pairs since a map keyed by strings proves nothing here.
    pub timer_colors: Vec<(String, String)>,
    pub show_popup: bool,
    pub titles: Vec<String>,
    /// The tab shown.
    pub index: usize,
    /// Selected row of the table of saved sets.
    pub table_state_sets: Option<usize>,
    /// Selected row of the settings table.
    pub table_state_config: Option<usize>,
    pub darkmode_str: String,
    pub activecolor_str: String,
    pub reverseadding_str: String,
    pub move_finished_timer_str: String,
    pub action_timeout_str: String,
    pub pomodoro_time_table_str: String,
    pub pomodoro_smallbreak_table_str: String,
    pub pomodoro_bigbreak_table_str: String,
    pub config_type: ConfigType,
}

/// `x` cut into the range of `i64`.
pub open spec fn clamp_i64(x: int) -> i64 {
    if x > i64::MAX {
        i64::MAX
    } else if x < i64::MIN {
        i64::MIN
    } else {
        x as i64
    }
}

/// Seconds left over the first `n` timers of lane `lane`.
pub open spec fn lane_total(ts: Seq<Timer>, lane: bool, n: int) -> int
    decreases n,
{
    if n <= 0 {
        0
    } else {
        lane_total(ts, lane, n - 1) + if ts[n - 1].left_view == lane {
            ts[n - 1].timeleft_secs as int
        } else {
            0
        }
    }
}

/// When timer `i` will finish if its lane runs without edits from `now` on.
pub open spec fn end_of(ts: Seq<Timer>, i: int, now: i64) -> i64 {
    clamp_i64(now + lane_total(ts, ts[i].left_view, i + 1))
}

/// The last of the first `n` timers of lane `lane` with time left, or -1.
pub open spec fn last_busy(ts: Seq<Timer>, lane: bool, n: int) -> int
    decreases n,
{
    if n <= 0 {
        -1
    } else if ts[n - 1].left_view == lane && ts[n - 1].timeleft_secs != 0 {
        n - 1
    } else {
        last_busy(ts, lane, n - 1)
    }
}

/// The timer that carries the completion-action mark: of the last busy timer of each
/// lane, the one with more time left (the left one on a tie); -1 when there is no action.
pub open spec fn marked_index(ts: Seq<Timer>, action: Seq<char>) -> int {
    if action == "None"@ {
        -1
    } else {
        let l = last_busy(ts, true, ts.len() as int);
        let r = last_busy(ts, false, ts.len() as int);
        if l >= 0 && r >= 0 {
            if ts[l].timeleft_secs >= ts[r].timeleft_secs {
                l
            } else {
                r
            }
        } else if l >= 0 {
            l
        } else {
            r
        }
    }
}

/// The mark shown on the timer after which the action runs.
pub open spec fn mark_text(action: Seq<char>) -> Seq<char> {
    if action == "Hibernate"@ {
        "(H)"@
    } else if action == "Shutdown"@ {
        "(S)"@
    } else {
        Seq::<char>::empty()
    }
}

/// `after` is `before` with ids, end times and marks recomputed from the list order,
/// and with every timer made inactive when `clear` holds.
pub open spec fn scheduled(
    before: Seq<Timer>,
    after: Seq<Timer>,
    now: i64,
    action: Seq<char>,
    clear: bool,
) -> bool {
    &&& after.len() == before.len()
    &&& forall|i: int|
        0 <= i < after.len() ==> {
            let a = #[trigger] after[i];
            let b = before[i];
            &&& a.id == i
            &&& a.is_active == (b.is_active && !clear)
            &&& a.left_view == b.left_view
            &&& a.description == b.description
            &&& a.initial_time == b.initial_time
            &&& a.timeleft_secs == b.timeleft_secs
            &&& a.timer_type == b.timer_type
            &&& a.repeat_times == b.repeat_times
            &&& a.endtime == end_of(before, i, now)
            &&& a.action_info@ == if i == marked_index(before, action) {
                mark_text(action)
            } else {
                "   "@
            }
        }
}

/// Scheduling keeps what is persisted of each timer.
pub proof fn lemma_scheduled_entries(before: Seq<Timer>, after: Seq<Timer>, now: i64, action: Seq<char>, clear: bool)
    requires
        scheduled(before, after, now, action, clear),
    ensures
        entries(after) == entries(before),
{
    assert(entries(after) =~= entries(before)) by {
        assert forall|i: int| 0 <= i < after.len() implies #[trigger] entries(after)[i] == entries(before)[i] by {
            assert(after[i].description == before[i].description);
        }
    }
}

/// Every field but the timers is the same.
pub open spec fn same_but_timers(a: Configuration, b: Configuration) -> bool {
    &&& a.darkmode == b.darkmode
    &&& a.activecolor == b.activecolor
    &&& a.reverseadding == b.reverseadding
    &&& a.move_finished_timer == b.move_finished_timer
    &&& a.action_timeout == b.action_timeout
    &&& a.pomodoro_time == b.pomodoro_time
    &&& a.pomodoro_smallbreak == b.pomodoro_smallbreak
    &&& a.pomodoro_bigbreak == b.pomodoro_bigbreak
    &&& a.timer_colors == b.timer_colors
    &&& a.show_popup == b.show_popup
    &&& a.titles == b.titles
    &&& a.index == b.index
    &&& a.table_state_sets == b.table_state_sets
    &&& a.table_state_config == b.table_state_config
    &&& a.darkmode_str == b.darkmode_str
    &&& a.activecolor_str == b.activecolor_str
    &&& a.reverseadding_str == b.reverseadding_str
    &&& a.move_finished_timer_str == b.move_finished_timer_str
    &&& a.action_timeout_str == b.action_timeout_str
    &&& a.pomodoro_time_table_str == b.pomodoro_time_table_str
    &&& a.pomodoro_smallbreak_table_str == b.pomodoro_smallbreak_table_str
    &&& a.pomodoro_bigbreak_table_str == b.pomodoro_bigbreak_table_str
    &&& a.config_type == b.config_type
}

proof fn lemma_last_busy(ts: Seq<Timer>, lane: bool, n: int)
    requires
        0 <= n <= ts.len(),
    ensures
        -1 <= last_busy(ts, lane, n) < n,
        last_busy(ts, lane, n) >= 0 ==> ts[last_busy(ts, lane, n)].left_view == lane
            && ts[last_busy(ts, lane, n)].timeleft_secs != 0,
    decreases n,
{
    if n > 0 {
        lemma_last_busy(ts, lane, n - 1);
    }
}

pub open spec fn opt_index(o: Option<usize>) -> int {
    match o {
        Some(i) => i as int,
        None => -1,
    }
}

fn end_time(now: i64, total: u64) -> (r: i64)
    ensures
        r == clamp_i64(now + total),
{
    let e: i128 = now as i128 + total as i128;
    if e > i64::MAX as i128 {
        i64::MAX
    } else {
        e as i64
    }
}

impl Configuration {
    /// The defaults: no timers, the initial tags, dark mode, green, finished timers
    /// moved to the end and no completion action.
    pub fn new(pomodoro_time: u64, pomodoro_smallbreak: u64, pomodoro_bigbreak: u64) -> (c: Configuration)
        ensures
            c.pomodoro_time == pomodoro_time,
            c.pomodoro_smallbreak == pomodoro_smallbreak,
            c.pomodoro_bigbreak == pomodoro_bigbreak,
            c.timers@.len() == 0,
            pair_views(c.timer_colors@) == initial_timer_colors(),
            names_unique(pair_views(c.timer_colors@)),
            c.darkmode,
            c.activecolor@ == "Green"@,
            !c.reverseadding,
            c.move_finished_timer,
            c.action_timeout@ == "None"@,
            !c.show_popup,
            c.titles@.len() == 0,
            c.index == 0,
            c.table_state_sets is None,
            c.table_state_config is None,
            c.darkmode_str@.len() == 0,
            c.activecolor_str@.len() == 0,
            c.reverseadding_str@.len() == 0,
            c.move_finished_timer_str@.len() == 0,
            c.action_timeout_str@.len() == 0,
            c.pomodoro_time_table_str@.len() == 0,
            c.pomodoro_smallbreak_table_str@.len() == 0,
            c.pomodoro_bigbreak_table_str@.len() == 0,
            c.config_type == ConfigType::DarkMode,
    {
        Configuration {
            pomodoro_time,
            pomodoro_smallbreak,
            pomodoro_bigbreak,
            timers: Vec::new(),
            timer_colors: get_initial_timer_colors(),
            darkmode: true,
            activecolor: String::from_str("Green"),
            reverseadding: false,
            move_finished_timer: true,
            action_timeout: String::from_str("None"),
            show_popup: false,
            titles: Vec::new(),
            index: 0,
            table_state_sets: None,
            table_state_config: None,
            darkmode_str: String::new(),
            activecolor_str: String::new(),
            reverseadding_str: String::new(),
            move_finished_timer_str: String::new(),
            action_timeout_str: String::new(),
            pomodoro_time_table_str: String::new(),
            pomodoro_smallbreak_table_str: String::new(),
            pomodoro_bigbreak_table_str: String::new(),
            config_type: ConfigType::DarkMode,
        }
    }

    /// The timer that gets the completion-action mark, if any.
    fn marked_timer(&self) -> (r: Option<usize>)
        ensures
            opt_index(r) == marked_index(self.timers@, self.action_timeout@),
    {
        let ts = &self.timers;
        let mut last_left: Option<usize> = None;
        let mut last_right: Option<usize> = None;
        let mut i: usize = 0;
        while i < ts.len()
            invariant
                i <= ts.len(),
                opt_index(last_left) == last_busy(ts@, true, i as int),
                opt_index(last_right) == last_busy(ts@, false, i as int),
            decreases ts.len() - i,
        {
            if ts[i].timeleft_secs != 0 {
                if ts[i].left_view {
                    last_left = Some(i);
                } else {
                    last_right = Some(i);
                }
            }
            i = i + 1;
        }
        proof {
            lemma_last_busy(ts@, true, ts@.len() as int);
            lemma_last_busy(ts@, false, ts@.len() as int);
        }
        if same_chars(&chars_of(self.action_timeout.as_str()), &chars_of("None")) {
            return None;
        }
        match (last_left, last_right) {
            (Some(l), Some(r)) => if ts[l].timeleft_secs >= ts[r].timeleft_secs {
                Some(l)
            } else {
                Some(r)
            },
            (Some(l), None) => Some(l),
            (None, r) => r,
        }
    }

    /// The mark for the configured completion action.
    fn mark(&self) -> (r: Vec<char>)
        ensures
            r@ == mark_text(self.action_timeout@),
    {
        let a = chars_of(self.action_timeout.as_str());
        if same_chars(&a, &chars_of("Hibernate")) {
            chars_of("(H)")
        } else if same_chars(&a, &chars_of("Shutdown")) {
            chars_of("(S)")
        } else {
            Vec::new()
        }
    }

    /// Recomputes ids, end times and the completion-action mark; makes every timer
    /// inactive when `clear` holds.
    pub fn refresh(&mut self, now: i64, clear: bool)
        ensures
            scheduled(old(self).timers@, final(self).timers@, now, old(self).action_timeout@, clear),
            same_but_timers(*final(self), *old(self)),
    {
        let marked = self.marked_timer();
        let mark = self.mark();
        let ghost before = self.timers@;
        let ghost action = self.action_timeout@;
        let ghost c0 = *self;
        let n = self.timers.len();
        let mut left_sum: u64 = 0;
        let mut right_sum: u64 = 0;
        let mut i: usize = 0;
        while i < n
            invariant
                n == before.len(),
                i <= n,
                same_but_timers(*self, c0),
                self.timers@.len() == n,
                opt_index(marked) == marked_index(before, action),
                mark@ == mark_text(action),
                lane_total(before, true, i as int) >= 0,
                lane_total(before, false, i as int) >= 0,
                left_sum == sat(lane_total(before, true, i as int)),
                right_sum == sat(lane_total(before, false, i as int)),
                forall|j: int| i <= j < n ==> #[trigger] self.timers@[j] == before[j],
                forall|j: int|
                    0 <= j < i ==> {
                        let a = #[trigger] self.timers@[j];
                        let b = before[j];
                        &&& a.id == j
                        &&& a.is_active == (b.is_active && !clear)
                        &&& a.left_view == b.left_view
                        &&& a.description == b.description
                        &&& a.initial_time == b.initial_time
                        &&& a.timeleft_secs == b.timeleft_secs
                        &&& a.timer_type == b.timer_type
                        &&& a.repeat_times == b.repeat_times
                        &&& a.endtime == end_of(before, j, now)
                        &&& a.action_info@ == if j == marked_index(before, action) {
                            mark_text(action)
                        } else {
                            "   "@
                        }
                    },
            decreases n - i,
        {
            let mut t = self.timers.remove(i);
            assert(t == before[i as int]);
            let total: u64;
            if t.left_view {
                left_sum = left_sum.saturating_add(t.timeleft_secs);
                total = left_sum;
            } else {
                right_sum = right_sum.saturating_add(t.timeleft_secs);
                total = right_sum;
            }
            assert(lane_total(before, true, i + 1) == lane_total(before, true, i as int) + if t.left_view {
                t.timeleft_secs as int
            } else {
                0
            });
            assert(lane_total(before, false, i + 1) == lane_total(before, false, i as int) + if !t.left_view {
                t.timeleft_secs as int
            } else {
                0
            });
            assert(total == sat(lane_total(before, t.left_view, i + 1)));
            t.endtime = end_time(now, total);
            t.id = i;
            if clear {
                t.is_active = false;
            }
            if marked == Some(i) {
                t.action_info = text_of(&mark);
            } else {
                t.action_info = String::from_str("   ");
            }
            self.timers.insert(i, t);
            i = i + 1;
        }
    }

    /// Recomputes ids, end times and marks as of `now`, and makes every timer inactive.
    pub fn update_timers_at(&mut self, now: i64)
        ensures
            scheduled(old(self).timers@, final(self).timers@, now, old(self).action_timeout@, true),
            same_but_timers(*final(self), *old(self)),
    {
        self.refresh(now, true);
    }

    /// Recomputes ids, end times and marks as of the current time, and makes every timer
    /// inactive.
    pub fn update_timers(&mut self)
        ensures
            exists|now: i64|
                scheduled(old(self).timers@, final(self).timers@, now, old(self).action_timeout@, true),
            same_but_timers(*final(self), *old(self)),
    {
        let now = now_timestamp();
        self.update_timers_at(now);
    }
}

impl Configuration {
    /// Adds `timer` at the front or the back: the front when exactly one of
    /// `reverseadding` and `reverse_adding` holds.
    pub fn add_timer_to_config(&mut self, timer: Timer, reverse_adding: bool)
        ensures
            final(self).timers@ == placed(old(self).timers@, old(self).reverseadding != reverse_adding, timer),
            same_but_timers(*final(self), *old(self)),
    {
        if self.reverseadding != reverse_adding {
            self.timers.insert(0, timer);
        } else {
            self.timers.push(timer);
        }
    }

    /// A timer for the arguments of an `add` command. When `argument1` is no duration,
    /// it is put in front of the description in `argument2`.
    pub fn create_timer_for_input(
        &self,
        argument1: &String,
        argument2: &mut String,
        left_view: bool,
        color_input: Option<String>,
    ) -> (t: Timer)
        ensures
            final(argument2)@ == described(argument1@, old(argument2)@),
            fresh_timer(t, final(argument2)@, duration_secs(argument1@), left_view, tag_view(color_input)),
            t.timer_type == color_input,
    {
        let (hours, minutes, seconds) = parse_duration(argument1.as_str());
        let a = chars_of(argument1.as_str());
        proof {
            reveal_strlit(" ");
            let me = parse_or_zero(a@);
            vstd::arithmetic::div_mod::lemma_fundamental_div_mod(me as int, 60);
        }
        if a.len() != 8 && hours == 0 && minutes == 0 {
            let mut d: Vec<char> = Vec::new();
            push_all(&mut d, &a);
            d.push(' ');
            push_all(&mut d, &chars_of(argument2.as_str()));
            *argument2 = text_of(&d);
            assert(argument2@ =~= described(argument1@, old(argument2)@));
        }
        let desc = argument2.clone();
        Timer::new(desc, total_secs(hours, minutes, seconds), left_view, color_input)
    }

    /// How many timers are in the right lane.
    pub fn num_rightview_timers(&self) -> (r: usize)
        ensures
            r == right_lane_count(self.timers@),
    {
        num_rightview_timers(&self.timers)
    }

    /// Whether no timer has time left.
    pub fn check_all_timers_done(&self) -> (r: bool)
        ensures
            r == forall|i: int| 0 <= i < self.timers@.len() ==> #[trigger] self.timers@[i].timeleft_secs == 0,
    {
        let mut i: usize = 0;
        while i < self.timers.len()
            invariant
                i <= self.timers.len(),
                forall|j: int| 0 <= j < i ==> #[trigger] self.timers@[j].timeleft_secs == 0,
            decreases self.timers.len() - i,
        {
            if self.timers[i].timeleft_secs > 0 {
                return false;
            }
            i = i + 1;
        }
        true
    }
}

/// `restored` is a list of timers rebuilt from `saved`: the same persisted fields in
/// the same order, ids equal to positions, none active.
pub open spec fn restored_from(saved: Seq<SavedTimer>, restored: Seq<Timer>) -> bool {
    &&& entries(restored) == saved_entries(saved)
    &&& forall|i: int| 0 <= i < restored.len() ==> (#[trigger] restored[i]).id == i && !restored[i].is_active
}

/// Saving a list of timers and restoring what was saved gives back the same timers in
/// the same order; only ids, activity, end times and marks are computed afresh.
pub proof fn lemma_restore_after_save(timers: Seq<Timer>, saved: Seq<SavedTimer>, restored: Seq<Timer>)
    requires
        saved_entries(saved) == entries(timers),
        restored_from(saved, restored),
    ensures
        entries(restored) == entries(timers),
        restored.len() == timers.len(),
        forall|i: int| 0 <= i < restored.len() ==> (#[trigger] restored[i]).id == i,
{
    assert(entries(restored).len() == entries(timers).len());
}

impl Configuration {
    /// The saved form of the timers, in order.
    pub fn saved_timers(&self) -> (r: Vec<SavedTimer>)
        ensures
            saved_entries(r@) == entries(self.timers@),
    {
        let mut r: Vec<SavedTimer> = Vec::new();
        let mut i: usize = 0;
        while i < self.timers.len()
            invariant
                i <= self.timers.len(),
                r@.len() == i,
                saved_entries(r@) == entries(self.timers@.take(i as int)),
            decreases self.timers.len() - i,
        {
            let s = self.timers[i].to_saved();
            let ghost r0 = r@;
            r.push(s);
            assert(saved_entries(r@) =~= entries(self.timers@.take(i + 1))) by {
                assert forall|j: int| 0 <= j < i implies #[trigger] saved_entries(r@)[j] == entries(self.timers@.take(i + 1))[j] by {
                    assert(saved_entries(r0)[j] == entries(self.timers@.take(i as int))[j]);
                }
            }
            i = i + 1;
        }
        assert(self.timers@.take(self.timers.len() as int) =~= self.timers@);
        r
    }

    /// Replaces the timers by the saved ones, then schedules them as of `now`.
    pub fn restore_timers_at(&mut self, saved: Vec<SavedTimer>, now: i64)
        ensures
            restored_from(saved@, final(self).timers@),
            exists|ts: Seq<Timer>|
                entries(ts) == saved_entries(saved@) && #[trigger] scheduled(
                    ts,
                    final(self).timers@,
                    now,
                    old(self).action_timeout@,
                    true,
                ),
            same_but_timers(*final(self), *old(self)),
    {
        let ghost all = saved@;
        let mut saved = saved;
        let mut ts: Vec<Timer> = Vec::new();
        let n = saved.len();
        let mut i: usize = 0;
        while saved.len() > 0
            invariant
                i <= n,
                n == all.len(),
                saved@ == all.skip(i as int),
                ts@.len() == i,
                entries(ts@) == saved_entries(all.take(i as int)),
            decreases saved.len(),
        {
            let s = saved.remove(0);
            assert(all.skip(i as int).drop_first() =~= all.skip(i + 1));
            let ghost t0 = ts@;
            ts.push(Timer::from_saved(s));
            assert(entries(ts@) =~= saved_entries(all.take(i + 1))) by {
                assert forall|j: int| 0 <= j < i implies #[trigger] entries(ts@)[j] == saved_entries(all.take(i + 1))[j] by {
                    assert(entries(t0)[j] == saved_entries(all.take(i as int))[j]);
                }
            }
            i = i + 1;
        }
        assert(all.take(i as int) =~= all);
        let ghost before = ts@;
        self.timers = ts;
        let ghost c0 = *self;
        self.update_timers_at(now);
        proof {
            lemma_scheduled_entries(before, self.timers@, now, c0.action_timeout@, true);
            assert(scheduled(before, self.timers@, now, old(self).action_timeout@, true));
        }
    }

    /// Replaces the timers by the saved ones, then schedules them as of the current time.
    pub fn restore_timers(&mut self, saved: Vec<SavedTimer>)
        ensures
            restored_from(saved@, final(self).timers@),
            same_but_timers(*final(self), *old(self)),
    {
        let now = now_timestamp();
        self.restore_timers_at(saved, now);
    }
}

/// The row after `sel` in an eight-row table, from the last back to the first; the
/// first row when none is selected.
pub open spec fn next_row(sel: Option<usize>) -> usize {
    match sel {
        Some(i) => if i >= 7 {
            0
        } else {
            (i + 1) as usize
        },
        None => 0,
    }
}

/// The row before `sel` in an eight-row table, from the first back to the last; the
/// first row when none is selected.
pub open spec fn previous_row(sel: Option<usize>) -> usize {
    match sel {
        Some(i) => if i == 0 {
            7
        } else {
            (i - 1) as usize
        },
        None => 0,
    }
}

/// The tab after the one `o` shows, from the last back to the first.
pub open spec fn next_tab(o: Configuration) -> Configuration {
    Configuration {
        index: if o.titles@.len() == 0 {
            o.index
        } else {
            ((o.index + 1) % (o.titles@.len() as int)) as usize
        },
        ..o
    }
}

/// The tab before the one `o` shows, from the first back to the last.
pub open spec fn previous_tab(o: Configuration) -> Configuration {
    Configuration {
        index: if o.titles@.len() == 0 {
            o.index
        } else if o.index > 0 {
            (o.index - 1) as usize
        } else {
            (o.titles@.len() - 1) as usize
        },
        ..o
    }
}

/// `f` is `o` with the next (`forward`) or previous row selected in the table that the
/// shown tab holds; on the settings tab the edited setting follows.
pub open spec fn table_moved(o: Configuration, f: Configuration, forward: bool) -> bool {
    let row = |sel: Option<usize>|
        if forward {
            next_row(sel)
        } else {
            previous_row(sel)
        };
    if o.index == 1 {
        &&& f == (Configuration {
            table_state_config: Some(row(o.table_state_config)),
            config_type: f.config_type,
            ..o
        })
        &&& f.config_type.ordinal() == if forward {
            (o.config_type.ordinal() + 1) % 8
        } else {
            (o.config_type.ordinal() + 7) % 8
        }
    } else if o.index == 2 {
        f == (Configuration { table_state_sets: Some(row(o.table_state_sets)), ..o })
    } else {
        f == o
    }
}

/// `f` is `o` with the text of the selected setting emptied; with no row selected,
/// nothing changes.
pub open spec fn entry_cleared(o: Configuration, f: Configuration) -> bool {
    match o.table_state_config {
        Some(0) => f == (Configuration { darkmode_str: f.darkmode_str, ..o })
            && f.darkmode_str@.len() == 0,
        Some(1) => f == (Configuration { activecolor_str: f.activecolor_str, ..o })
            && f.activecolor_str@.len() == 0,
        Some(2) => f == (Configuration { reverseadding_str: f.reverseadding_str, ..o })
            && f.reverseadding_str@.len() == 0,
        Some(3) => f == (Configuration {
            move_finished_timer_str: f.move_finished_timer_str,
            ..o
        }) && f.move_finished_timer_str@.len() == 0,
        Some(4) => f == (Configuration { action_timeout_str: f.action_timeout_str, ..o })
            && f.action_timeout_str@.len() == 0,
        Some(5) => f == (Configuration {
            pomodoro_time_table_str: f.pomodoro_time_table_str,
            ..o
        }) && f.pomodoro_time_table_str@.len() == 0,
        Some(6) => f == (Configuration {
            pomodoro_smallbreak_table_str: f.pomodoro_smallbreak_table_str,
            ..o
        }) && f.pomodoro_smallbreak_table_str@.len() == 0,
        Some(7) => f == (Configuration {
            pomodoro_bigbreak_table_str: f.pomodoro_bigbreak_table_str,
            ..o
        }) && f.pomodoro_bigbreak_table_str@.len() == 0,
        _ => f == o,
    }
}

/// `f` is `o` with the settings table's texts stored as settings. An empty text stands
/// for the default, which it then shows: `false`, `Green`, `None`, 25, 5 and 10 minutes.
/// A flag is on only when its text is `true`.
pub open spec fn table_saved(o: Configuration, f: Configuration) -> bool {
    &&& f == (Configuration {
        darkmode: f.darkmode,
        darkmode_str: f.darkmode_str,
        activecolor: f.activecolor,
        activecolor_str: f.activecolor_str,
        reverseadding: f.reverseadding,
        move_finished_timer: f.move_finished_timer,
        action_timeout: f.action_timeout,
        action_timeout_str: f.action_timeout_str,
        pomodoro_time: f.pomodoro_time,
        pomodoro_time_table_str: f.pomodoro_time_table_str,
        pomodoro_smallbreak: f.pomodoro_smallbreak,
        pomodoro_smallbreak_table_str: f.pomodoro_smallbreak_table_str,
        pomodoro_bigbreak: f.pomodoro_bigbreak,
        pomodoro_bigbreak_table_str: f.pomodoro_bigbreak_table_str,
        ..o
    })
    &&& f.darkmode == flag_of(o.darkmode_str@)
    &&& f.darkmode_str@ == or_default(o.darkmode_str@, "false"@)
    &&& f.activecolor@ == or_default(o.activecolor_str@, "Green"@)
    &&& f.activecolor_str@ == f.activecolor@
    &&& f.reverseadding == flag_of(o.reverseadding_str@)
    &&& f.move_finished_timer == flag_of(o.move_finished_timer_str@)
    &&& f.action_timeout@ == or_default(o.action_timeout_str@, "None"@)
    &&& f.action_timeout_str@ == f.action_timeout@
    &&& f.pomodoro_time == minutes_value(o.pomodoro_time_table_str@, 25)
    &&& f.pomodoro_time_table_str@ == or_default(o.pomodoro_time_table_str@, "25"@)
    &&& f.pomodoro_smallbreak == minutes_value(o.pomodoro_smallbreak_table_str@, 5)
    &&& f.pomodoro_smallbreak_table_str@ == or_default(
        o.pomodoro_smallbreak_table_str@,
        "5"@,
    )
    &&& f.pomodoro_bigbreak == minutes_value(o.pomodoro_bigbreak_table_str@, 10)
    &&& f.pomodoro_bigbreak_table_str@ == or_default(o.pomodoro_bigbreak_table_str@, "10"@)

}

/// The text of a setting flag read as `str::parse::<bool>` would, failures as `false`.
pub open spec fn flag_of(s: Seq<char>) -> bool {
    s == "true"@
}

/// A pomodoro length that the settings table holds: empty, or a number that fits a `u64`.
pub open spec fn minutes_text_ok(s: Seq<char>) -> bool {
    s.len() == 0 || parse_unsigned_spec(s, u64::MAX as nat) is Some
}

/// The value stored for a pomodoro length text, `default` when it is empty.
pub open spec fn minutes_value(s: Seq<char>, default: u64) -> u64 {
    match parse_unsigned_spec(s, u64::MAX as nat) {
        Some(v) => v as u64,
        None => default,
    }
}

/// A text that an empty setting takes when saved.
pub open spec fn or_default(s: Seq<char>, default: Seq<char>) -> Seq<char> {
    if s.len() == 0 {
        default
    } else {
        s
    }
}

/// The text of a number stepped by one, kept within `0..=99` unless it started outside.
pub open spec fn stepped(s: Seq<char>, up: bool) -> Seq<char> {
    let v = parse_i32_spec(s)->0;
    signed_decimal(
        if up && v < 99 {
            v + 1
        } else if !up && v > 0 {
            v - 1
        } else {
            v
        },
    )
}

/// How a flag is written in the settings table.
pub open spec fn flag_text_spec(b: bool) -> Seq<char> {
    if b {
        "true"@
    } else {
        "false"@
    }
}

fn decimal_text(n: u64) -> (r: String)
    ensures
        r@ == decimal(n as nat),
{
    let mut out: Vec<char> = Vec::new();
    push_decimal(n, &mut out);
    assert(out@ =~= decimal(n as nat));
    text_of(&out)
}

fn flag_text(b: bool) -> (r: String)
    ensures
        r@ == flag_text_spec(b),
{
    if b {
        String::from_str("true")
    } else {
        String::from_str("false")
    }
}

fn read_minutes(s: &String, default: u64) -> (r: u64)
    requires
        minutes_text_ok(s@),
    ensures
        r == minutes_value(s@, default),
{
    match parse_unsigned(&chars_of(s.as_str()), u64::MAX) {
        Some(v) => v,
        None => default,
    }
}

fn step_text(s: &String, up: bool) -> (r: String)
    requires
        parse_i32_spec(s@) is Some,
    ensures
        r@ == stepped(s@, up),
{
    let v = match parse_i32(&chars_of(s.as_str())) {
        Some(v) => v,
        None => 0,
    };
    let w: i32 = if up && v < 99 {
        v + 1
    } else if !up && v > 0 {
        v - 1
    } else {
        v
    };
    let mut out: Vec<char> = Vec::new();
    push_signed(w as i64, &mut out);
    text_of(&out)
}

impl Configuration {
    /// Shows the following tab, from the last back to the first.
    pub fn next(&mut self)
        ensures
            *final(self) == next_tab(*old(self)),
    {
        let n = self.titles.len();
        if n > 0 {
            self.index = ((self.index as u128 + 1) % (n as u128)) as usize;
        }
    }

    /// Shows the preceding tab, from the first back to the last.
    pub fn previous(&mut self)
        ensures
            *final(self) == previous_tab(*old(self)),
    {
        let n = self.titles.len();
        if n > 0 {
            if self.index > 0 {
                self.index = self.index - 1;
            } else {
                self.index = n - 1;
            }
        }
    }

    /// Selects the next row of the table that the shown tab holds; on the settings tab
    /// the edited setting follows.
    pub fn next_table_entry(&mut self)
        ensures
            table_moved(*old(self), *final(self), true),
    {
        match UiState::get_current_ui(self.index) {
            UiState::ConfigUi => {
                let i = match self.table_state_config {
                    Some(i) => if i >= 7 {
                        0
                    } else {
                        i + 1
                    },
                    None => 0,
                };
                self.table_state_config = Some(i);
                self.config_type.next();
            },
            UiState::SetsUi => {
                let i = match self.table_state_sets {
                    Some(i) => if i >= 7 {
                        0
                    } else {
                        i + 1
                    },
                    None => 0,
                };
                self.table_state_sets = Some(i);
            },
            UiState::TimerUi => {},
        }
    }

    /// Selects the previous row of the table that the shown tab holds; on the settings
    /// tab the edited setting follows.
    pub fn previous_table_entry(&mut self)
        ensures
            table_moved(*old(self), *final(self), false),
    {
        match UiState::get_current_ui(self.index) {
            UiState::ConfigUi => {
                let i = match self.table_state_config {
                    Some(i) => if i == 0 {
                        7
                    } else {
                        i - 1
                    },
                    None => 0,
                };
                self.table_state_config = Some(i);
                self.config_type.previous();
            },
            UiState::SetsUi => {
                let i = match self.table_state_sets {
                    Some(i) => if i == 0 {
                        7
                    } else {
                        i - 1
                    },
                    None => 0,
                };
                self.table_state_sets = Some(i);
            },
            UiState::TimerUi => {},
        }
    }

    /// Empties the text of the selected setting; with no row selected, nothing changes.
    pub fn clear_table_entry(&mut self)
        ensures
            entry_cleared(*old(self), *final(self)),
    {
        match self.table_state_config {
            Some(0) => self.darkmode_str = String::new(),
            Some(1) => self.activecolor_str = String::new(),
            Some(2) => self.reverseadding_str = String::new(),
            Some(3) => self.move_finished_timer_str = String::new(),
            Some(4) => self.action_timeout_str = String::new(),
            Some(5) => self.pomodoro_time_table_str = String::new(),
            Some(6) => self.pomodoro_smallbreak_table_str = String::new(),
            Some(7) => self.pomodoro_bigbreak_table_str = String::new(),
            _ => {},
        }
    }
}

/// The settings table's texts all hold values that saving can read.
pub open spec fn table_texts_ok(c: Configuration) -> bool {
    &&& minutes_text_ok(c.pomodoro_time_table_str@)
    &&& minutes_text_ok(c.pomodoro_smallbreak_table_str@)
    &&& minutes_text_ok(c.pomodoro_bigbreak_table_str@)
}

/// The text of the setting that `config_type` selects holds a value that stepping can
/// read: a number fitting an `i32` for the pomodoro lengths.
pub open spec fn selected_text_ok(c: Configuration) -> bool {
    match c.config_type {
        ConfigType::PomodoroTime => parse_i32_spec(c.pomodoro_time_table_str@) is Some,
        ConfigType::PomodoroSmallBreak => parse_i32_spec(c.pomodoro_smallbreak_table_str@) is Some,
        ConfigType::PomodoroBigBreak => parse_i32_spec(c.pomodoro_bigbreak_table_str@) is Some,
        _ => true,
    }
}

/// `f` is `o` with the selected setting's text stepped forward (`up`) or back: flags
/// negated, colours and actions cycled, pomodoro lengths moved by one within `0..=99`.
pub open spec fn setting_stepped(o: Configuration, f: Configuration, up: bool) -> bool {
    match o.config_type {
        ConfigType::DarkMode => f == (Configuration { darkmode_str: f.darkmode_str, ..o })
            && f.darkmode_str@ == negated_flag(o.darkmode_str@),
        ConfigType::ActiveColor => f == (Configuration { activecolor_str: f.activecolor_str, ..o })
            && exists|k: AcceptedColors|
            names_color(o.activecolor_str@, k) && f.activecolor_str@ == color_name(
                color_at(
                    if up {
                        (k.ordinal() + 1) % 16
                    } else {
                        (k.ordinal() + 15) % 16
                    },
                ),
            ),
        ConfigType::ReverseAddingTimer => f == (Configuration { reverseadding_str: f.reverseadding_str, ..o })
            && f.reverseadding_str@ == negated_flag(o.reverseadding_str@),
        ConfigType::MoveFinishedTimer => f == (Configuration {
            move_finished_timer_str: f.move_finished_timer_str,
            ..o
        }) && f.move_finished_timer_str@ == negated_flag(o.move_finished_timer_str@),
        ConfigType::ActionAfterTimer => f == (Configuration { action_timeout_str: f.action_timeout_str, ..o })
            && f.action_timeout_str@ == action_name(
            action_at(
                if up {
                    (action_named(o.action_timeout_str@).ordinal() + 1) % 3
                } else {
                    (action_named(o.action_timeout_str@).ordinal() + 2) % 3
                },
            ),
        ),
        ConfigType::PomodoroTime => f == (Configuration {
            pomodoro_time_table_str: f.pomodoro_time_table_str,
            ..o
        }) && f.pomodoro_time_table_str@ == stepped(o.pomodoro_time_table_str@, up),
        ConfigType::PomodoroSmallBreak => f == (Configuration {
            pomodoro_smallbreak_table_str: f.pomodoro_smallbreak_table_str,
            ..o
        }) && f.pomodoro_smallbreak_table_str@ == stepped(o.pomodoro_smallbreak_table_str@, up),
        ConfigType::PomodoroBigBreak => f == (Configuration {
            pomodoro_bigbreak_table_str: f.pomodoro_bigbreak_table_str,
            ..o
        }) && f.pomodoro_bigbreak_table_str@ == stepped(o.pomodoro_bigbreak_table_str@, up),
    }
}

fn or_default_text(s: &String, default: &str) -> (r: String)
    ensures
        r@ == or_default(s@, default@),
{
    if chars_of(s.as_str()).len() == 0 {
        String::from_str(default)
    } else {
        s.clone()
    }
}

fn cycled_color(s: &String, up: bool) -> (r: String)
    ensures
        exists|k: AcceptedColors|
            names_color(s@, k) && r@ == color_name(
                color_at(
                    if up {
                        (k.ordinal() + 1) % 16
                    } else {
                        (k.ordinal() + 15) % 16
                    },
                ),
            ),
{
    let k = AcceptedColors::from_name(s.as_str());
    let n = if up {
        k.next_color()
    } else {
        k.previous_color()
    };
    assert(color_at(n.ordinal()) == n);
    n.name()
}

fn cycled_action(s: &String, up: bool) -> (r: String)
    ensures
        r@ == action_name(
            action_at(
                if up {
                    (action_named(s@).ordinal() + 1) % 3
                } else {
                    (action_named(s@).ordinal() + 2) % 3
                },
            ),
        ),
{
    let mut k = TimerAction::from_name(s.as_str());
    let n = if up {
        k.next()
    } else {
        k.previous()
    };
    assert(action_at(n.ordinal()) == n);
    n.name()
}

impl Configuration {
    /// Stores the settings table's texts as settings. An empty text stands for the
    /// default, which it then shows: `false`, `Green`, `None`, 25, 5 and 10 minutes.
    /// A flag is on only when its text is `true`.
    pub fn save_table_changes(&mut self)
        requires
            table_texts_ok(*old(self)),
        ensures
            table_saved(*old(self), *final(self)),
    {
        self.darkmode = same_chars(&chars_of(self.darkmode_str.as_str()), &chars_of("true"));
        self.darkmode_str = or_default_text(&self.darkmode_str, "false");
        self.activecolor = or_default_text(&self.activecolor_str, "Green");
        self.activecolor_str = self.activecolor.clone();
        self.reverseadding = same_chars(&chars_of(self.reverseadding_str.as_str()), &chars_of("true"));
        self.move_finished_timer = same_chars(
            &chars_of(self.move_finished_timer_str.as_str()),
            &chars_of("true"),
        );
        self.action_timeout = or_default_text(&self.action_timeout_str, "None");
        self.action_timeout_str = self.action_timeout.clone();
        self.pomodoro_time = read_minutes(&self.pomodoro_time_table_str, 25);
        self.pomodoro_time_table_str = or_default_text(&self.pomodoro_time_table_str, "25");
        self.pomodoro_smallbreak = read_minutes(&self.pomodoro_smallbreak_table_str, 5);
        self.pomodoro_smallbreak_table_str = or_default_text(&self.pomodoro_smallbreak_table_str, "5");
        self.pomodoro_bigbreak = read_minutes(&self.pomodoro_bigbreak_table_str, 10);
        self.pomodoro_bigbreak_table_str = or_default_text(&self.pomodoro_bigbreak_table_str, "10");
    }

    /// Writes the current settings into the settings table's texts.
    pub fn load_table_texts(&mut self)
        ensures
            ({
                let o = *old(self);
                let f = *final(self);
                &&& f == (Configuration {
                    darkmode_str: f.darkmode_str,
                    activecolor_str: f.activecolor_str,
                    reverseadding_str: f.reverseadding_str,
                    move_finished_timer_str: f.move_finished_timer_str,
                    action_timeout_str: f.action_timeout_str,
                    pomodoro_time_table_str: f.pomodoro_time_table_str,
                    pomodoro_smallbreak_table_str: f.pomodoro_smallbreak_table_str,
                    pomodoro_bigbreak_table_str: f.pomodoro_bigbreak_table_str,
                    ..o
                })
                &&& f.darkmode_str@ == flag_text_spec(o.darkmode)
                &&& f.activecolor_str@ == o.activecolor@
                &&& f.reverseadding_str@ == flag_text_spec(o.reverseadding)
                &&& f.move_finished_timer_str@ == flag_text_spec(o.move_finished_timer)
                &&& f.action_timeout_str@ == o.action_timeout@
                &&& f.pomodoro_time_table_str@ == decimal(o.pomodoro_time as nat)
                &&& f.pomodoro_smallbreak_table_str@ == decimal(o.pomodoro_smallbreak as nat)
                &&& f.pomodoro_bigbreak_table_str@ == decimal(o.pomodoro_bigbreak as nat)
            }),
    {
        self.darkmode_str = flag_text(self.darkmode);
        self.activecolor_str = self.activecolor.clone();
        self.reverseadding_str = flag_text(self.reverseadding);
        self.move_finished_timer_str = flag_text(self.move_finished_timer);
        self.action_timeout_str = self.action_timeout.clone();
        self.pomodoro_time_table_str = decimal_text(self.pomodoro_time);
        self.pomodoro_smallbreak_table_str = decimal_text(self.pomodoro_smallbreak);
        self.pomodoro_bigbreak_table_str = decimal_text(self.pomodoro_bigbreak);
    }

    /// Whether [`Configuration::save_table_changes`] can read every text of the table.
    pub fn table_texts_valid(&self) -> (r: bool)
        ensures
            r == table_texts_ok(*self),
    {
        text_is_minutes(&self.pomodoro_time_table_str) && text_is_minutes(&self.pomodoro_smallbreak_table_str)
            && text_is_minutes(&self.pomodoro_bigbreak_table_str)
    }

    /// Whether the text of the selected setting can be stepped.
    pub fn selected_text_valid(&self) -> (r: bool)
        ensures
            r == selected_text_ok(*self),
    {
        match self.config_type {
            ConfigType::PomodoroTime => parse_i32(&chars_of(self.pomodoro_time_table_str.as_str())).is_some(),
            ConfigType::PomodoroSmallBreak => parse_i32(
                &chars_of(self.pomodoro_smallbreak_table_str.as_str()),
            ).is_some(),
            ConfigType::PomodoroBigBreak => parse_i32(
                &chars_of(self.pomodoro_bigbreak_table_str.as_str()),
            ).is_some(),
            _ => true,
        }
    }

    fn step_setting(&mut self, up: bool)
        requires
            selected_text_ok(*old(self)),
        ensures
            setting_stepped(*old(self), *final(self), up),
    {
        match self.config_type {
            ConfigType::DarkMode => self.darkmode_str = reverse_bool(self.darkmode_str.as_str()),
            ConfigType::ActiveColor => self.activecolor_str = cycled_color(&self.activecolor_str, up),
            ConfigType::ReverseAddingTimer => self.reverseadding_str = reverse_bool(
                self.reverseadding_str.as_str(),
            ),
            ConfigType::MoveFinishedTimer => self.move_finished_timer_str = reverse_bool(
                self.move_finished_timer_str.as_str(),
            ),
            ConfigType::ActionAfterTimer => self.action_timeout_str = cycled_action(
                &self.action_timeout_str,
                up,
            ),
            ConfigType::PomodoroTime => self.pomodoro_time_table_str = step_text(
                &self.pomodoro_time_table_str,
                up,
            ),
            ConfigType::PomodoroSmallBreak => self.pomodoro_smallbreak_table_str = step_text(
                &self.pomodoro_smallbreak_table_str,
                up,
            ),
            ConfigType::PomodoroBigBreak => self.pomodoro_bigbreak_table_str = step_text(
                &self.pomodoro_bigbreak_table_str,
                up,
            ),
        }
    }

    /// Steps the selected setting's text forward.
    pub fn move_value_right(&mut self)
        requires
            selected_text_ok(*old(self)),
        ensures
            setting_stepped(*old(self), *final(self), true),
    {
        self.step_setting(true);
    }

    /// Steps the selected setting's text back.
    pub fn move_value_left(&mut self)
        requires
            selected_text_ok(*old(self)),
        ensures
            setting_stepped(*old(self), *final(self), false),
    {
        self.step_setting(false);
    }
}

fn text_is_minutes(s: &String) -> (r: bool)
    ensures
        r == minutes_text_ok(s@),
{
    let v = chars_of(s.as_str());
    v.len() == 0 || parse_unsigned(&v, u64::MAX).is_some()
}

} // verus!
