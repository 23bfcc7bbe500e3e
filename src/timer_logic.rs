use vstd::prelude::*;
use crate::configuration::{opt_index, same_but_timers, scheduled, Configuration};
use crate::text::{
    all_digits, chars_of, digits_value, is_digit_spec, join_words, joined, lower_of, lowercase,
    parse_unsigned, parse_unsigned_spec, push_all, same_chars, split_words, text_of,
    unsigned_digits, views, words_of,
};
use crate::timer::{sat, sat_mul, tag_view, Timer};
use crate::utils::{find_name, pair_views};

verus! {

/// Why a command was turned down without any change.
#[derive(PartialEq, Eq, Structural, Clone, Copy, Debug)]
pub enum CommandError {
    /// A position given to `move`, `moveup`, `movedown` or `merge` is outside the list.
    IndexOutOfRange,
}

/// The unsigned number written by `s`, or zero when `s` is no such number.
pub open spec fn parse_or_zero(s: Seq<char>) -> nat {
    match parse_unsigned_spec(s, u64::MAX as nat) {
        Some(v) => v,
        None => 0,
    }
}

/// Hours, minutes and seconds read from a duration argument: the fixed fields of
/// `HH:MM:SS` when it is eight characters long, else a number of minutes.
pub open spec fn duration_fields(a: Seq<char>) -> (nat, nat, nat) {
    if a.len() == 8 {
        (
            parse_or_zero(a.subrange(0, 2)),
            parse_or_zero(a.subrange(3, 5)),
            parse_or_zero(a.subrange(6, 8)),
        )
    } else {
        let m = parse_or_zero(a);
        (m / 60, m % 60, 0)
    }
}

/// The length in seconds of a duration argument.
pub open spec fn duration_secs(a: Seq<char>) -> u64 {
    let (h, m, s) = duration_fields(a);
    sat((h * 3600 + m * 60 + s) as int)
}

/// The description of a new timer: when the duration argument is no duration at all,
/// it belongs to the description.
pub open spec fn described(a: Seq<char>, rest: Seq<char>) -> Seq<char> {
    if a.len() != 8 && parse_or_zero(a) == 0 {
        a + " "@ + rest
    } else {
        rest
    }
}

/// `t` is a fresh timer with these settings.
pub open spec fn fresh_timer(
    t: Timer,
    description: Seq<char>,
    secs: u64,
    left_view: bool,
    tag: Option<Seq<char>>,
) -> bool {
    &&& t.id == 0
    &&& !t.is_active
    &&& t.left_view == left_view
    &&& t.description@ == description
    &&& t.initial_time == secs
    &&& t.timeleft_secs == secs
    &&& t.action_info@ == "   "@
    &&& tag_view(t.timer_type) == tag
    &&& t.repeat_times == 0
}

/// Where an added timer goes: the front when exactly one of the setting and the
/// command asks for reversed adding, else the back.
pub open spec fn placed(ts: Seq<Timer>, front: bool, t: Timer) -> Seq<Timer> {
    if front {
        ts.insert(0, t)
    } else {
        ts.push(t)
    }
}

fn parse_field(a: &Vec<char>, from: usize) -> (r: u64)
    requires
        from + 2 <= a.len(),
    ensures
        r == parse_or_zero(a@.subrange(from as int, from + 2)),
{
    let mut f: Vec<char> = Vec::new();
    f.push(a[from]);
    f.push(a[from + 1]);
    assert(f@ =~= a@.subrange(from as int, from + 2));
    match parse_unsigned(&f, u64::MAX) {
        Some(v) => v,
        None => 0,
    }
}

/// Reads a duration argument as hours, minutes and seconds.
pub fn parse_duration(argument1: &str) -> (r: (u64, u64, u64))
    ensures
        (r.0 as nat, r.1 as nat, r.2 as nat) == duration_fields(argument1@),
{
    let a = chars_of(argument1);
    if a.len() == 8 {
        (parse_field(&a, 0), parse_field(&a, 3), parse_field(&a, 6))
    } else {
        let m = match parse_unsigned(&a, u64::MAX) {
            Some(v) => v,
            None => 0,
        };
        (m / 60, m % 60, 0)
    }
}

/// `h * 3600 + m * 60 + s`, or the largest `u64` when that does not fit.
pub fn total_secs(h: u64, m: u64, s: u64) -> (r: u64)
    ensures
        r == sat(h * 3600 + m * 60 + s),
{
    let a = sat_mul(h, 3600);
    let b = sat_mul(m, 60);
    a.saturating_add(b).saturating_add(s)
}

/// The first of the first `n` timers whose id is `id`, or -1.
pub open spec fn first_id_in(ts: Seq<Timer>, id: int, n: int) -> int
    decreases n,
{
    if n <= 0 {
        -1
    } else {
        let p = first_id_in(ts, id, n - 1);
        if p >= 0 {
            p
        } else if ts[n - 1].id == id {
            n - 1
        } else {
            -1
        }
    }
}

/// The first timer whose id is `id`, or -1.
pub open spec fn first_id(ts: Seq<Timer>, id: int) -> int {
    first_id_in(ts, id, ts.len() as int)
}

proof fn lemma_first_id_stable(ts: Seq<Timer>, id: int, m: int, n: int)
    requires
        0 <= m <= n <= ts.len(),
        first_id_in(ts, id, m) >= 0,
    ensures
        first_id_in(ts, id, n) == first_id_in(ts, id, m),
    decreases n,
{
    if n > m {
        lemma_first_id_stable(ts, id, m, n - 1);
    }
}

/// The position of the first timer whose id is `id`.
pub fn find_id(ts: &Vec<Timer>, id: usize) -> (r: Option<usize>)
    ensures
        opt_index(r) == first_id(ts@, id as int),
        r matches Some(k) ==> k < ts.len(),
{
    let mut i: usize = 0;
    while i < ts.len()
        invariant
            i <= ts.len(),
            first_id_in(ts@, id as int, i as int) == -1,
        decreases ts.len() - i,
    {
        if ts[i].id == id {
            proof {
                lemma_first_id_stable(ts@, id as int, i + 1, ts@.len() as int);
            }
            return Some(i);
        }
        i = i + 1;
    }
    None
}

/// `ts` without the timers whose id is `id`, the others in order.
pub open spec fn without_id(ts: Seq<Timer>, id: int) -> Seq<Timer>
    decreases ts.len(),
{
    if ts.len() == 0 {
        ts
    } else {
        let r = without_id(ts.drop_last(), id);
        if ts.last().id == id {
            r
        } else {
            r.push(ts.last())
        }
    }
}

/// `ts` with the timers at `i` and `j` exchanged.
pub open spec fn swapped(ts: Seq<Timer>, i: int, j: int) -> Seq<Timer> {
    ts.update(i, ts[j]).update(j, ts[i])
}

/// `n` is `t` with `o` merged into it: `o`'s description in parentheses after its own,
/// `o`'s remaining seconds added to its remaining ones and `o`'s initial seconds to its
/// initial ones.
pub open spec fn merged_timer(t: Timer, o: Timer, n: Timer) -> bool {
    &&& n.description@ == t.description@ + " ("@ + o.description@ + ")"@
    &&& n.timeleft_secs == sat(t.timeleft_secs + o.timeleft_secs)
    &&& n.initial_time == sat(t.initial_time + o.initial_time)
    &&& n.id == t.id
    &&& n.is_active == t.is_active
    &&& n.left_view == t.left_view
    &&& n.endtime == t.endtime
    &&& n.action_info == t.action_info
    &&& n.timer_type == t.timer_type
    &&& n.repeat_times == t.repeat_times
}

pub open spec fn usize_arg(s: Seq<char>) -> Option<nat> {
    parse_unsigned_spec(s, usize::MAX as nat)
}

pub open spec fn id_arg(s: Seq<char>) -> Option<nat> {
    parse_unsigned_spec(s, u16::MAX as nat)
}

pub open spec fn minutes_arg(s: Seq<char>) -> Option<nat> {
    parse_unsigned_spec(s, u64::MAX as nat)
}

/// What `add` does to the timers: one fresh timer at the front or the back.
pub open spec fn add_effect(
    old: Configuration,
    new: Configuration,
    a1: Seq<char>,
    a2: Seq<char>,
    left_view: bool,
    reverse_adding: bool,
    tag: Option<Seq<char>>,
) -> bool {
    let k = if old.reverseadding != reverse_adding {
        0
    } else {
        old.timers@.len() as int
    };
    &&& same_but_timers(new, old)
    &&& new.timers@.len() == old.timers@.len() + 1
    &&& new.timers@.remove(k) == old.timers@
    &&& fresh_timer(new.timers@[k], described(a1, a2), duration_secs(a1), left_view, tag)
}

/// What `addp` does: a work timer and then a break, both added as `add` adds; the break
/// is the long one when the list held a non-zero multiple of six timers.
pub open spec fn pomodoro_effect(old: Configuration, new: Configuration) -> bool {
    let n = old.timers@.len() as int;
    let work = sat(old.pomodoro_time * 60);
    let rest = if n != 0 && n % 6 == 0 {
        sat(old.pomodoro_bigbreak * 60)
    } else {
        sat(old.pomodoro_smallbreak * 60)
    };
    let (w, b) = if old.reverseadding {
        (1int, 0int)
    } else {
        (n, n + 1)
    };
    let kept = if old.reverseadding {
        new.timers@.subrange(2, n + 2)
    } else {
        new.timers@.take(n)
    };
    &&& same_but_timers(new, old)
    &&& new.timers@.len() == n + 2
    &&& kept == old.timers@
    &&& fresh_timer(new.timers@[w], "Pomodoro-Timer"@, work, true, Some("focus"@))
    &&& fresh_timer(new.timers@[b], "Pomodoro-Break"@, rest, true, Some("break"@))
}

/// What `rm` does: drops the timers with the given id.
pub open spec fn remove_effect(old: Configuration, new: Configuration, a1: Seq<char>) -> bool {
    &&& same_but_timers(new, old)
    &&& new.timers@ == match id_arg(a1) {
        Some(id) => without_id(old.timers@, id as int),
        None => old.timers@,
    }
}

/// What `move` does: takes out the timer at the first position and puts it back at
/// the second.
pub open spec fn move_effect(
    old: Configuration,
    new: Configuration,
    a1: Seq<char>,
    a2: Seq<char>,
    r: Result<(), CommandError>,
) -> bool {
    let ts = old.timers@;
    &&& same_but_timers(new, old)
    &&& match (usize_arg(a1), usize_arg(a2)) {
        (Some(i), Some(j)) => if i < ts.len() && j < ts.len() {
            r is Ok && new.timers@ == ts.remove(i as int).insert(j as int, ts[i as int])
        } else {
            r == Err::<(), CommandError>(CommandError::IndexOutOfRange) && new.timers@ == ts
        },
        _ => r is Ok && new.timers@ == ts,
    }
}

/// What `moveup` (`up`) and `movedown` (not `up`) do: exchange a timer with its neighbour.
pub open spec fn shift_effect(
    old: Configuration,
    new: Configuration,
    a1: Seq<char>,
    up: bool,
    r: Result<(), CommandError>,
) -> bool {
    let ts = old.timers@;
    &&& same_but_timers(new, old)
    &&& match usize_arg(a1) {
        Some(i) => {
            let j: int = if up {
                i - 1
            } else {
                (i + 1) as int
            };
            if i < ts.len() && 0 <= j < ts.len() {
                r is Ok && new.timers@ == swapped(ts, i as int, j)
            } else {
                r == Err::<(), CommandError>(CommandError::IndexOutOfRange) && new.timers@ == ts
            }
        },
        None => r is Ok && new.timers@ == ts,
    }
}

/// What `merge` does: when timers with both ids exist, the timer at the second position
/// is taken out and merged into the one that then stands at the first position.
pub open spec fn merge_effect(
    old: Configuration,
    new: Configuration,
    a1: Seq<char>,
    a2: Seq<char>,
    r: Result<(), CommandError>,
) -> bool {
    let ts = old.timers@;
    &&& same_but_timers(new, old)
    &&& match (usize_arg(a1), usize_arg(a2)) {
        (Some(i), Some(j)) => if first_id(ts, i as int) >= 0 && first_id(ts, j as int) >= 0 {
            if j < ts.len() && i + 1 < ts.len() {
                let rest = ts.remove(j as int);
                &&& r is Ok
                &&& new.timers@.len() == rest.len()
                &&& forall|k: int|
                    0 <= k < rest.len() && k != i ==> #[trigger] new.timers@[k] == rest[k]
                &&& merged_timer(rest[i as int], ts[j as int], new.timers@[i as int])
            } else {
                r == Err::<(), CommandError>(CommandError::IndexOutOfRange) && new.timers@ == ts
            }
        } else {
            r is Ok && new.timers@ == ts
        },
        _ => r is Ok && new.timers@ == ts,
    }
}

/// What `plus` does: adds minutes to the remaining and initial time of the first timer
/// with the id.
pub open spec fn increase_effect(old: Configuration, new: Configuration, a1: Seq<char>, a2: Seq<char>) -> bool {
    let ts = old.timers@;
    &&& same_but_timers(new, old)
    &&& new.timers@ == match (id_arg(a1), minutes_arg(a2)) {
        (Some(id), Some(m)) => {
            let k = first_id(ts, id as int);
            if k >= 0 {
                let t = ts[k];
                ts.update(
                    k,
                    Timer {
                        timeleft_secs: sat(t.timeleft_secs + m * 60),
                        initial_time: sat(t.initial_time + m * 60),
                        ..t
                    },
                )
            } else {
                ts
            }
        },
        _ => ts,
    }
}

/// What `minus` does to the first timer with the id: takes minutes off its remaining
/// time, down to zero; the initial time loses them too unless the remaining time was
/// shorter.
pub open spec fn decrease_effect(old: Configuration, new: Configuration, a1: Seq<char>, a2: Seq<char>) -> bool {
    let ts = old.timers@;
    &&& same_but_timers(new, old)
    &&& new.timers@ == match (id_arg(a1), minutes_arg(a2)) {
        (Some(id), Some(m)) => {
            let k = first_id(ts, id as int);
            if k >= 0 {
                let t = ts[k];
                if t.timeleft_secs < m * 60 {
                    ts.update(k, Timer { timeleft_secs: 0, ..t })
                } else {
                    ts.update(
                        k,
                        Timer {
                            timeleft_secs: (t.timeleft_secs - m * 60) as u64,
                            initial_time: sat(t.initial_time - m * 60),
                            ..t
                        },
                    )
                }
            } else {
                ts
            }
        },
        _ => ts,
    }
}

/// What `rename` does: the first timer with the id gets the new description.
pub open spec fn rename_effect(old: Configuration, new: Configuration, a1: Seq<char>, a2: String) -> bool {
    let ts = old.timers@;
    &&& same_but_timers(new, old)
    &&& new.timers@ == match id_arg(a1) {
        Some(id) => {
            let k = first_id(ts, id as int);
            if k >= 0 {
                ts.update(k, Timer { description: a2, ..ts[k] })
            } else {
                ts
            }
        },
        None => ts,
    }
}

fn arg_usize(s: &str) -> (r: Option<usize>)
    ensures
        opt_nat(r) == usize_arg(s@),
{
    match parse_unsigned(&chars_of(s), usize::MAX as u64) {
        Some(v) => Some(v as usize),
        None => None,
    }
}

pub open spec fn opt_nat(o: Option<usize>) -> Option<nat> {
    match o {
        Some(v) => Some(v as nat),
        None => None,
    }
}

/// Adds a timer for an `add`, `add2` or `addr` command: `add2` puts it in the right
/// lane, the others in the left one.
pub fn add_timer(
    argument1: &String,
    argument2: &mut String,
    routine: &str,
    config: &mut Configuration,
    reverse_adding: bool,
    color_input: Option<String>,
)
    ensures
        final(argument2)@ == described(argument1@, old(argument2)@),
        add_effect(
            *old(config),
            *final(config),
            argument1@,
            old(argument2)@,
            routine@ != "add2"@,
            reverse_adding,
            tag_view(color_input),
        ),
{
    let left = !same_chars(&chars_of(routine), &chars_of("add2"));
    let timer = config.create_timer_for_input(argument1, argument2, left, color_input);
    let ghost before = config.timers@;
    config.add_timer_to_config(timer, reverse_adding);
    if config.reverseadding != reverse_adding {
        assert(config.timers@.remove(0) =~= before);
    } else {
        assert(config.timers@.remove(before.len() as int) =~= before);
    }
}

/// Adds a pomodoro: a work timer tagged `focus`, then a break tagged `break`.
pub fn add_pomodoro_timer(config: &mut Configuration)
    ensures
        pomodoro_effect(*old(config), *final(config)),
{
    let n = config.timers.len();
    let work = Timer::new(
        String::from_str("Pomodoro-Timer"),
        sat_mul(config.pomodoro_time, 60),
        true,
        Some(String::from_str("focus")),
    );
    let rest_secs = if n != 0 && n % 6 == 0 {
        sat_mul(config.pomodoro_bigbreak, 60)
    } else {
        sat_mul(config.pomodoro_smallbreak, 60)
    };
    let rest = Timer::new(String::from_str("Pomodoro-Break"), rest_secs, true, Some(String::from_str("break")));
    let ghost before = config.timers@;
    config.add_timer_to_config(work, false);
    config.add_timer_to_config(rest, false);
    if config.reverseadding {
        assert(config.timers@.subrange(2, n + 2) =~= before);
    } else {
        assert(config.timers@.take(n as int) =~= before);
    }
}

/// `rm`: removes the timers with the id written in `argument1`.
pub fn remove_timer(argument1: &str, config: &mut Configuration)
    ensures
        remove_effect(*old(config), *final(config), argument1@),
{
    let id = match parse_unsigned(&chars_of(argument1), u16::MAX as u64) {
        Some(v) => v as usize,
        None => {
            return;
        },
    };
    let mut rest: Vec<Timer> = Vec::new();
    std::mem::swap(&mut rest, &mut config.timers);
    let ghost all = rest@;
    let total = rest.len();
    let mut kept: Vec<Timer> = Vec::new();
    let mut i: usize = 0;
    while rest.len() > 0
        invariant
            i <= all.len(),
            all.len() == total,
            rest@ == all.skip(i as int),
            kept@ == without_id(all.take(i as int), id as int),
            config.timers@.len() == 0,
            same_but_timers(*config, *old(config)),
            all == old(config).timers@,
        decreases rest.len(),
    {
        let t = rest.remove(0);
        assert(all.take(i + 1).drop_last() =~= all.take(i as int));
        assert(all.skip(i as int).drop_first() =~= all.skip(i + 1));
        if t.id != id {
            kept.push(t);
        }
        i = i + 1;
    }
    assert(all.take(i as int) =~= all);
    config.timers = kept;
}

/// `move`: takes out the timer at position `argument1` and inserts it at `argument2`.
pub fn move_timer(argument1: &str, argument2: &str, config: &mut Configuration) -> (r: Result<(), CommandError>)
    ensures
        move_effect(*old(config), *final(config), argument1@, argument2@, r),
{
    match (arg_usize(argument1), arg_usize(argument2)) {
        (Some(id), Some(id2)) => {
            if id < config.timers.len() && id2 < config.timers.len() {
                let t = config.timers.remove(id);
                config.timers.insert(id2, t);
                Ok(())
            } else {
                Err(CommandError::IndexOutOfRange)
            }
        },
        _ => Ok(()),
    }
}

fn swap_neighbours(ts: &mut Vec<Timer>, i: usize)
    requires
        i + 1 < old(ts).len(),
    ensures
        final(ts)@ == swapped(old(ts)@, i as int, i + 1),
{
    let t = ts.remove(i + 1);
    ts.insert(i, t);
    assert(ts@ =~= swapped(old(ts)@, i as int, i + 1));
}

/// `moveup`: exchanges the timer at position `argument1` with the one before it.
pub fn move_timer_up(argument1: &str, config: &mut Configuration) -> (r: Result<(), CommandError>)
    ensures
        shift_effect(*old(config), *final(config), argument1@, true, r),
{
    let id = match arg_usize(argument1) {
        Some(id) => id,
        None => {
            return Ok(());
        },
    };
    if id == 0 || id >= config.timers.len() {
        return Err(CommandError::IndexOutOfRange);
    }
    swap_neighbours(&mut config.timers, id - 1);
    assert(config.timers@ =~= swapped(old(config).timers@, id as int, id - 1));
    Ok(())
}

/// `movedown`: exchanges the timer at position `argument1` with the one after it.
pub fn move_timer_down(argument1: &str, config: &mut Configuration) -> (r: Result<(), CommandError>)
    ensures
        shift_effect(*old(config), *final(config), argument1@, false, r),
{
    let id = match arg_usize(argument1) {
        Some(id) => id,
        None => {
            return Ok(());
        },
    };
    if id >= config.timers.len() || id + 1 >= config.timers.len() {
        return Err(CommandError::IndexOutOfRange);
    }
    swap_neighbours(&mut config.timers, id);
    Ok(())
}

fn arg_id(s: &str) -> (r: Option<usize>)
    ensures
        opt_nat(r) == id_arg(s@),
{
    match parse_unsigned(&chars_of(s), u16::MAX as u64) {
        Some(v) => Some(v as usize),
        None => None,
    }
}

fn arg_minutes(s: &str) -> (r: Option<u64>)
    ensures
        match r {
            Some(v) => minutes_arg(s@) == Some(v as nat),
            None => minutes_arg(s@) is None,
        },
{
    parse_unsigned(&chars_of(s), u64::MAX)
}

/// `merge`: folds the timer at position `argument2` into the one at `argument1`.
pub fn merge_timers(argument1: &str, argument2: &str, config: &mut Configuration) -> (r: Result<(), CommandError>)
    ensures
        merge_effect(*old(config), *final(config), argument1@, argument2@, r),
{
    let (id, id2) = match (arg_usize(argument1), arg_usize(argument2)) {
        (Some(a), Some(b)) => (a, b),
        _ => {
            return Ok(());
        },
    };
    if find_id(&config.timers, id).is_none() || find_id(&config.timers, id2).is_none() {
        return Ok(());
    }
    if id2 >= config.timers.len() || id >= config.timers.len() - 1 {
        return Err(CommandError::IndexOutOfRange);
    }
    let o = config.timers.remove(id2);
    let ghost rest = config.timers@;
    let mut t = config.timers.remove(id);
    let mut d: Vec<char> = chars_of(t.description.as_str());
    push_all(&mut d, &chars_of(" ("));
    push_all(&mut d, &chars_of(o.description.as_str()));
    push_all(&mut d, &chars_of(")"));
    t.description = text_of(&d);
    t.timeleft_secs = t.timeleft_secs.saturating_add(o.timeleft_secs);
    t.initial_time = t.initial_time.saturating_add(o.initial_time);
    config.timers.insert(id, t);
    assert(forall|k: int| 0 <= k < rest.len() && k != id ==> #[trigger] config.timers@[k] == rest[k]);
    Ok(())
}

fn set_times(ts: &mut Vec<Timer>, k: usize, timeleft: u64, initial: u64)
    requires
        k < old(ts).len(),
    ensures
        final(ts)@ == old(ts)@.update(
            k as int,
            Timer { timeleft_secs: timeleft, initial_time: initial, ..old(ts)@[k as int] },
        ),
{
    let mut t = ts.remove(k);
    t.timeleft_secs = timeleft;
    t.initial_time = initial;
    ts.insert(k, t);
    assert(ts@ =~= old(ts)@.update(
        k as int,
        Timer { timeleft_secs: timeleft, initial_time: initial, ..old(ts)@[k as int] },
    ));
}

/// `plus`: adds `argument2` minutes to the timer with id `argument1`.
pub fn increase_timer(argument1: &str, argument2: &str, config: &mut Configuration)
    ensures
        increase_effect(*old(config), *final(config), argument1@, argument2@),
{
    let id = match arg_id(argument1) {
        Some(id) => id,
        None => {
            return;
        },
    };
    let min = match arg_minutes(argument2) {
        Some(m) => m,
        None => {
            return;
        },
    };
    let k = match find_id(&config.timers, id) {
        Some(k) => k,
        None => {
            return;
        },
    };
    let secs = sat_mul(min, 60);
    let tl = config.timers[k].timeleft_secs.saturating_add(secs);
    let init = config.timers[k].initial_time.saturating_add(secs);
    set_times(&mut config.timers, k, tl, init);
}

/// `minus`: takes `argument2` minutes off the timer with id `argument1`.
pub fn decrease_timer(argument1: &str, argument2: &str, config: &mut Configuration)
    ensures
        decrease_effect(*old(config), *final(config), argument1@, argument2@),
{
    let id = match arg_id(argument1) {
        Some(id) => id,
        None => {
            return;
        },
    };
    let min = match arg_minutes(argument2) {
        Some(m) => m,
        None => {
            return;
        },
    };
    let k = match find_id(&config.timers, id) {
        Some(k) => k,
        None => {
            return;
        },
    };
    let tl = config.timers[k].timeleft_secs;
    let init = config.timers[k].initial_time;
    match min.checked_mul(60) {
        Some(secs) => {
            if tl < secs {
                set_times(&mut config.timers, k, 0, init);
            } else {
                set_times(&mut config.timers, k, tl - secs, init.saturating_sub(secs));
            }
        },
        None => {
            set_times(&mut config.timers, k, 0, init);
        },
    }
}

/// `rename`: gives the timer with id `argument1` the description `argument2`.
pub fn rename_timer(argument1: String, config: &mut Configuration, argument2: String)
    ensures
        rename_effect(*old(config), *final(config), argument1@, argument2),
{
    let id = match arg_id(argument1.as_str()) {
        Some(id) => id,
        None => {
            return;
        },
    };
    let k = match find_id(&config.timers, id) {
        Some(k) => k,
        None => {
            return;
        },
    };
    let mut t = config.timers.remove(k);
    t.description = argument2;
    config.timers.insert(k, t);
    assert(config.timers@ =~= old(config).timers@.update(
        k as int,
        Timer { description: argument2, ..old(config).timers@[k as int] },
    ));
}

/// Whether the name table holds `key`.
pub open spec fn has_name(table: Seq<(Seq<char>, Seq<char>)>, key: Seq<char>) -> bool {
    exists|j: int| 0 <= j < table.len() && #[trigger] table[j].0 == key
}

/// Words of a command line taken apart: the verb, the first argument, the completion
/// tag that the next word names if its lower-case form `lowered` names one of `tags`,
/// and the remaining words joined with single spaces.
pub open spec fn parts_of_words(
    ws: Seq<Seq<char>>,
    lowered: Seq<char>,
    tags: Seq<(Seq<char>, Seq<char>)>,
) -> (Seq<char>, Seq<char>, Option<Seq<char>>, Seq<char>) {
    let verb = if ws.len() > 0 {
        ws[0]
    } else {
        Seq::<char>::empty()
    };
    let a1 = if ws.len() > 1 {
        ws[1]
    } else {
        Seq::<char>::empty()
    };
    let rest = if ws.len() > 2 {
        ws.skip(2)
    } else {
        Seq::<Seq<char>>::empty()
    };
    if rest.len() > 0 && has_name(tags, lowered) {
        (verb, a1, Some(lowered), joined(rest.drop_first()))
    } else {
        (verb, a1, None, joined(rest))
    }
}

/// A command line taken apart into words as [`parts_of_words`] says, the third word
/// compared in lower case.
pub open spec fn command_parts(
    input: Seq<char>,
    tags: Seq<(Seq<char>, Seq<char>)>,
) -> (Seq<char>, Seq<char>, Option<Seq<char>>, Seq<char>) {
    let ws = words_of(input);
    let lowered = if ws.len() > 2 {
        lower_of(ws[2])
    } else {
        Seq::<char>::empty()
    };
    parts_of_words(ws, lowered, tags)
}

/// What the command `verb` with these arguments does to the configuration, and what it
/// reports. An unknown verb changes nothing.
pub open spec fn command_effect(
    verb: Seq<char>,
    a1: Seq<char>,
    tag: Option<Seq<char>>,
    a2: Seq<char>,
    old: Configuration,
    new: Configuration,
    r: Result<(), CommandError>,
) -> bool {
    if verb == "a"@ || verb == "add"@ || verb == "add2"@ {
        r is Ok && add_effect(old, new, a1, a2, verb != "add2"@, false, tag)
    } else if verb == "ar"@ || verb == "addr"@ {
        r is Ok && add_effect(old, new, a1, a2, true, true, tag)
    } else if verb == "addp"@ {
        r is Ok && pomodoro_effect(old, new)
    } else if verb == "rm"@ {
        r is Ok && remove_effect(old, new, a1)
    } else if verb == "clear"@ {
        r is Ok && same_but_timers(new, old) && new.timers@.len() == 0
    } else {
        reorder_effect(verb, a1, a2, old, new, r)
    }
}

/// The part of [`command_effect`] for the verbs that reorder or merge timers.
pub open spec fn reorder_effect(
    verb: Seq<char>,
    a1: Seq<char>,
    a2: Seq<char>,
    old: Configuration,
    new: Configuration,
    r: Result<(), CommandError>,
) -> bool {
    if verb == "mv"@ || verb == "move"@ {
        move_effect(old, new, a1, a2, r)
    } else if verb == "mu"@ || verb == "moveup"@ {
        shift_effect(old, new, a1, true, r)
    } else if verb == "md"@ || verb == "movedown"@ {
        shift_effect(old, new, a1, false, r)
    } else if verb == "merge"@ {
        merge_effect(old, new, a1, a2, r)
    } else {
        r is Ok && edit_effect(verb, a1, a2, old, new)
    }
}

/// The part of [`command_effect`] for the verbs that edit one timer; an unknown verb
/// changes nothing.
pub open spec fn edit_effect(
    verb: Seq<char>,
    a1: Seq<char>,
    a2: Seq<char>,
    old: Configuration,
    new: Configuration,
) -> bool {
    if verb == "p"@ || verb == "plus"@ {
        increase_effect(old, new, a1, a2)
    } else if verb == "m"@ || verb == "minus"@ {
        decrease_effect(old, new, a1, a2)
    } else if verb == "rn"@ || verb == "rename"@ {
        exists|s: String| s@ == a2 && rename_effect(old, new, a1, s)
    } else {
        new == old
    }
}

/// Takes the words of a command line apart as [`parts_of_words`] says; `lowered` is the
/// lower-case form of the third word, when there is one.
pub fn command_from_words(
    ws: &Vec<Vec<char>>,
    lowered: String,
    tags: &Vec<(String, String)>,
) -> (r: (Vec<char>, String, Option<String>, String))
    ensures
        (r.0@, r.1@, tag_view(r.2), r.3@) == parts_of_words(views(ws@), lowered@, pair_views(tags@)),
{
    let verb: Vec<char> = if ws.len() > 0 {
        copy_chars(&ws[0])
    } else {
        Vec::new()
    };
    let a1: String = if ws.len() > 1 {
        text_of(&ws[1])
    } else {
        String::new()
    };
    let ghost vs = views(ws@);
    let ghost rest = if vs.len() > 2 {
        vs.skip(2)
    } else {
        Seq::<Seq<char>>::empty()
    };
    if ws.len() > 2 {
        let key = chars_of(lowered.as_str());
        match find_name(tags, &key) {
            Some(j) => {
                assert(pair_views(tags@)[j as int].0 == key@);
                let a2 = text_of(&join_words(ws, 3));
                assert(rest.drop_first() =~= vs.skip(3));
                return (verb, a1, Some(lowered), a2);
            },
            None => {
                assert(!has_name(pair_views(tags@), lowered@)) by {
                    if has_name(pair_views(tags@), lowered@) {
                        let j = choose|j: int|
                            0 <= j < pair_views(tags@).len() && #[trigger] pair_views(tags@)[j].0
                                == lowered@;
                        assert(tags@[j].0@ == key@);
                    }
                }
                let a2 = text_of(&join_words(ws, 2));
                return (verb, a1, None, a2);
            },
        }
    }
    assert(joined(rest) == Seq::<char>::empty());
    (verb, a1, None, String::new())
}

/// Takes a command line apart as [`command_parts`] says.
pub fn split_command(input: &str, tags: &Vec<(String, String)>) -> (r: (Vec<char>, String, Option<String>, String))
    ensures
        (r.0@, r.1@, tag_view(r.2), r.3@) == command_parts(input@, pair_views(tags@)),
{
    let ws = split_words(&chars_of(input));
    let lowered = if ws.len() > 2 {
        lowercase(text_of(&ws[2]).as_str())
    } else {
        String::new()
    };
    command_from_words(&ws, lowered, tags)
}

fn copy_chars(v: &Vec<char>) -> (r: Vec<char>)
    ensures
        r@ == v@,
{
    let mut r: Vec<char> = Vec::new();
    push_all(&mut r, v);
    r
}

fn is_verb(verb: &Vec<char>, name: &str) -> (r: bool)
    ensures
        r == (verb@ == name@),
{
    same_chars(verb, &chars_of(name))
}

/// Carries out one command on the configuration.
pub fn run_command(
    verb: &Vec<char>,
    argument1: String,
    color_input: Option<String>,
    argument2: String,
    config: &mut Configuration,
) -> (r: Result<(), CommandError>)
    ensures
        command_effect(verb@, argument1@, tag_view(color_input), argument2@, *old(config), *final(config), r),
{
    let mut argument2 = argument2;
    if is_verb(verb, "a") || is_verb(verb, "add") || is_verb(verb, "add2") {
        let routine = text_of(verb);
        add_timer(&argument1, &mut argument2, routine.as_str(), config, false, color_input);
        Ok(())
    } else if is_verb(verb, "ar") || is_verb(verb, "addr") {
        let routine = text_of(verb);
        assert(routine@ != "add2"@) by {
            reveal_strlit("add2");
            reveal_strlit("addr");
            reveal_strlit("ar");
            if verb@ == "addr"@ {
                assert(verb@[3] != "add2"@[3]);
            } else {
                assert(verb@.len() != "add2"@.len());
            }
        }
        add_timer(&argument1, &mut argument2, routine.as_str(), config, true, color_input);
        Ok(())
    } else if is_verb(verb, "addp") {
        add_pomodoro_timer(config);
        Ok(())
    } else if is_verb(verb, "rm") {
        remove_timer(argument1.as_str(), config);
        Ok(())
    } else if is_verb(verb, "clear") {
        config.timers.clear();
        Ok(())
    } else if is_verb(verb, "mv") || is_verb(verb, "move") {
        move_timer(argument1.as_str(), argument2.as_str(), config)
    } else if is_verb(verb, "mu") || is_verb(verb, "moveup") {
        move_timer_up(argument1.as_str(), config)
    } else if is_verb(verb, "md") || is_verb(verb, "movedown") {
        move_timer_down(argument1.as_str(), config)
    } else if is_verb(verb, "merge") {
        merge_timers(argument1.as_str(), argument2.as_str(), config)
    } else if is_verb(verb, "p") || is_verb(verb, "plus") {
        increase_timer(argument1.as_str(), argument2.as_str(), config);
        Ok(())
    } else if is_verb(verb, "m") || is_verb(verb, "minus") {
        decrease_timer(argument1.as_str(), argument2.as_str(), config);
        Ok(())
    } else if is_verb(verb, "rn") || is_verb(verb, "rename") {
        let ghost a2 = argument2;
        rename_timer(argument1, config, argument2);
        assert(a2@ == argument2@);
        Ok(())
    } else {
        Ok(())
    }
}

/// `f` is `o` after the command line `input`: nothing for an empty line or a turned-down
/// command; else the command's effect, then ids, end times and marks recomputed and every
/// timer inactive.
pub open spec fn input_applied(
    input: Seq<char>,
    o: Configuration,
    f: Configuration,
    r: Result<(), CommandError>,
) -> bool {
    if input.len() == 0 {
        r is Ok && f == o
    } else {
        let (verb, a1, tag, a2) = command_parts(input, pair_views(o.timer_colors@));
        if r is Ok {
            exists|mid: Configuration, now: i64|
                {
                    &&& command_effect(verb, a1, tag, a2, o, mid, r)
                    &&& #[trigger] scheduled(mid.timers@, f.timers@, now, mid.action_timeout@, true)
                    &&& same_but_timers(f, mid)
                }
        } else {
            &&& command_effect(verb, a1, tag, a2, o, f, r)
            &&& f.timers@ == o.timers@
            &&& same_but_timers(f, o)
        }
    }
}

/// Reads one command line and carries it out, then recomputes ids, end times and marks
/// and makes every timer inactive. An empty line does nothing. Malformed numbers make
/// the command do nothing; positions outside the list make it fail, with no change at all.
pub fn parse_input(input: &str, config: &mut Configuration) -> (r: Result<(), CommandError>)
    ensures
        input_applied(input@, *old(config), *final(config), r),
{
    if chars_of(input).len() == 0 {
        return Ok(());
    }
    let (verb, a1, tag, a2) = split_command(input, &config.timer_colors);
    let r = run_command(&verb, a1, tag, a2, config);
    if r.is_err() {
        return r;
    }
    let ghost mid = *config;
    config.update_timers();
    proof {
        let now = choose|now: i64| scheduled(mid.timers@, config.timers@, now, mid.action_timeout@, true);
        let (verb, a1, tag, a2) = command_parts(input@, pair_views(old(config).timer_colors@));
        assert(command_effect(verb, a1, tag, a2, *old(config), mid, r));
        assert(scheduled(mid.timers@, config.timers@, now, mid.action_timeout@, true));
    }
    r
}

proof fn lemma_two_digit_field(f: Seq<char>)
    requires
        f.len() == 2,
        all_digits(f),
    ensures
        parse_or_zero(f) == digits_value(f),
        digits_value(f) <= 99,
{
    assert(is_digit_spec(f[0]));
    assert(is_digit_spec(f[1]));
    assert(unsigned_digits(f) == f);
    let g = f.drop_last();
    assert(g.drop_last().len() == 0);
    assert(g.last() == f[0]);
    assert(digits_value(g) == digits_value(g.drop_last()) * 10 + ((f[0] as u32 - '0' as u32) as nat));
    assert(digits_value(g) <= 9);
    assert(digits_value(f) == digits_value(g) * 10 + ((f[1] as u32 - '0' as u32) as nat));
    assert(digits_value(f) <= 99);
}

/// An eight-character duration `HH:MM:SS` whose fields are decimal digits is read as
/// exactly those hours, minutes and seconds.
pub proof fn lemma_clock_duration(a: Seq<char>)
    requires
        a.len() == 8,
        a[2] == ':',
        a[5] == ':',
        all_digits(a.subrange(0, 2)),
        all_digits(a.subrange(3, 5)),
        all_digits(a.subrange(6, 8)),
    ensures
        duration_fields(a) == (
            digits_value(a.subrange(0, 2)),
            digits_value(a.subrange(3, 5)),
            digits_value(a.subrange(6, 8)),
        ),
        duration_secs(a) == digits_value(a.subrange(0, 2)) * 3600 + digits_value(a.subrange(3, 5))
            * 60 + digits_value(a.subrange(6, 8)),
{
    lemma_two_digit_field(a.subrange(0, 2));
    lemma_two_digit_field(a.subrange(3, 5));
    lemma_two_digit_field(a.subrange(6, 8));
}

/// A duration of decimal digits of any other length than eight is a number of whole
/// minutes, split into hours and minutes, with no seconds.
pub proof fn lemma_minutes_duration(a: Seq<char>)
    requires
        a.len() != 8,
        a.len() > 0,
        all_digits(a),
        digits_value(a) <= u64::MAX,
    ensures
        duration_fields(a) == (digits_value(a) / 60, digits_value(a) % 60, 0nat),
{
    assert(is_digit_spec(a[0]));
    assert(unsigned_digits(a) == a);
}

} // verus!
