use multitimer_tui::configuration::Configuration;
use multitimer_tui::timer::{Timer, TimerOutcome};
use multitimer_tui::timer_logic::{
    add_pomodoro_timer, command_from_words, decrease_timer, increase_timer, merge_timers, move_timer, move_timer_down,
    move_timer_up, parse_duration, parse_input, remove_timer, rename_timer, split_command,
    CommandError,
};

fn config() -> Configuration {
    Configuration::new(25, 5, 10)
}

fn remaining(c: &Configuration) -> Vec<u64> {
    c.timers.iter().map(|t| t.timeleft_secs).collect()
}

fn descriptions(c: &Configuration) -> Vec<String> {
    c.timers.iter().map(|t| t.description.clone()).collect()
}

#[test]
fn add_then_tick_five_times() {
    let mut c = config();
    assert_eq!(parse_input("add 00:00:05 Test", &mut c), Ok(()));
    assert_eq!(remaining(&c), vec![5]);
    assert_eq!(c.timers[0].description, "Test");
    let mut seen = Vec::new();
    let mut last = None;
    for _ in 0..5 {
        let r = c.tick_all();
        seen.push(c.timers[0].timeleft_secs);
        last = r.left;
    }
    assert_eq!(seen, vec![4, 3, 2, 1, 0]);
    assert_eq!(last, Some(TimerOutcome::JustFinished));
    assert!(!c.timers[0].is_active);
}

#[test]
fn addp_on_empty_collection() {
    let mut c = config();
    assert_eq!(parse_input("addp", &mut c), Ok(()));
    assert_eq!(remaining(&c), vec![1500, 300]);
    assert_eq!(c.timers[0].timer_type.as_deref(), Some("focus"));
    assert_eq!(c.timers[1].timer_type.as_deref(), Some("break"));
    assert_eq!(c.timers[0].description, "Pomodoro-Timer");
    assert_eq!(c.timers[1].description, "Pomodoro-Break");
}

#[test]
fn addp_gives_long_break_after_six_timers() {
    let mut c = config();
    for _ in 0..3 {
        add_pomodoro_timer(&mut c);
    }
    assert_eq!(c.timers.len(), 6);
    add_pomodoro_timer(&mut c);
    assert_eq!(c.timers[7].timeleft_secs, 600);
}

#[test]
fn plus_then_minus_saturates_at_zero() {
    let mut c = config();
    parse_input("add 5 Tea", &mut c).unwrap();
    assert_eq!(c.timers[0].timeleft_secs, 300);
    parse_input("plus 0 10", &mut c).unwrap();
    assert_eq!(c.timers[0].timeleft_secs, 900);
    assert_eq!(c.timers[0].initial_time, 900);
    parse_input("minus 0 15", &mut c).unwrap();
    assert_eq!(c.timers[0].timeleft_secs, 0);
}

#[test]
fn minus_keeps_initial_when_remaining_is_shorter() {
    let mut c = config();
    parse_input("add 10 Walk", &mut c).unwrap();
    decrease_timer("0", "20", &mut c);
    assert_eq!(c.timers[0].timeleft_secs, 0);
    assert_eq!(c.timers[0].initial_time, 600);
    increase_timer("0", "5", &mut c);
    decrease_timer("0", "2", &mut c);
    assert_eq!(c.timers[0].timeleft_secs, 180);
    assert_eq!(c.timers[0].initial_time, 780);
}

#[test]
fn merge_two_timers() {
    let mut c = config();
    c.timers.push(Timer::new("first".to_string(), 60, true, None));
    c.timers.push(Timer::new("second".to_string(), 120, true, None));
    c.update_timers();
    assert_eq!(parse_input("merge 0 1", &mut c), Ok(()));
    assert_eq!(c.timers.len(), 1);
    assert_eq!(c.timers[0].timeleft_secs, 180);
    assert_eq!(c.timers[0].initial_time, 180);
    assert_eq!(c.timers[0].description, "first (second)");
    assert_eq!(c.timers[0].id, 0);
}

#[test]
fn merge_rejects_position_shifted_out_of_range() {
    let mut c = config();
    parse_input("add 1 a", &mut c).unwrap();
    parse_input("add 2 b", &mut c).unwrap();
    assert_eq!(merge_timers("1", "0", &mut c), Err(CommandError::IndexOutOfRange));
    assert_eq!(remaining(&c), vec![60, 120]);
}

#[test]
fn merge_with_missing_id_does_nothing() {
    let mut c = config();
    parse_input("add 1 a", &mut c).unwrap();
    assert_eq!(merge_timers("0", "4", &mut c), Ok(()));
    assert_eq!(merge_timers("x", "0", &mut c), Ok(()));
    assert_eq!(remaining(&c), vec![60]);
}

#[test]
fn parse_duration_fields() {
    assert_eq!(parse_duration("01:02:03"), (1, 2, 3));
    assert_eq!(parse_duration("90"), (1, 30, 0));
    assert_eq!(parse_duration("+7"), (0, 7, 0));
    assert_eq!(parse_duration("ab:02:xx"), (0, 2, 0));
    assert_eq!(parse_duration("12345678"), (12, 45, 78));
    assert_eq!(parse_duration("abc"), (0, 0, 0));
    assert_eq!(parse_duration("18446744073709551616"), (0, 0, 0));
}

#[test]
fn add_with_clock_duration() {
    let mut c = config();
    parse_input("a 01:00:30 Long run", &mut c).unwrap();
    assert_eq!(c.timers[0].timeleft_secs, 3630);
    assert_eq!(c.timers[0].description, "Long run");
    assert!(c.timers[0].left_view);
}

#[test]
fn add_without_duration_keeps_word_in_description() {
    let mut c = config();
    parse_input("add Laundry   now", &mut c).unwrap();
    assert_eq!(c.timers[0].timeleft_secs, 0);
    assert_eq!(c.timers[0].description, "Laundry now");
    parse_input("add", &mut c).unwrap();
    assert_eq!(c.timers[1].description, " ");
}

#[test]
fn add_large_minutes_saturates() {
    let mut c = config();
    parse_input("add 18446744073709551615 forever", &mut c).unwrap();
    assert_eq!(c.timers[0].timeleft_secs, u64::MAX);
}

#[test]
fn add2_uses_right_lane() {
    let mut c = config();
    parse_input("add2 3 Right", &mut c).unwrap();
    assert!(!c.timers[0].left_view);
    assert_eq!(c.num_rightview_timers(), 1);
}

#[test]
fn addr_and_reverse_setting_put_timer_in_front() {
    let mut c = config();
    parse_input("add 1 one", &mut c).unwrap();
    parse_input("addr 2 two", &mut c).unwrap();
    assert_eq!(descriptions(&c), vec!["two", "one"]);
    c.reverseadding = true;
    parse_input("add 3 three", &mut c).unwrap();
    assert_eq!(descriptions(&c), vec!["three", "two", "one"]);
    parse_input("ar 4 four", &mut c).unwrap();
    assert_eq!(descriptions(&c), vec!["three", "two", "one", "four"]);
}

#[test]
fn tag_word_is_matched_in_lower_case() {
    let mut c = config();
    parse_input("add 25 FOCUS deep work", &mut c).unwrap();
    assert_eq!(c.timers[0].timer_type.as_deref(), Some("focus"));
    assert_eq!(c.timers[0].description, "deep work");
    parse_input("add 5 Sprint plan", &mut c).unwrap();
    assert_eq!(c.timers[1].timer_type, None);
    assert_eq!(c.timers[1].description, "Sprint plan");
}

#[test]
fn split_command_parts() {
    let tags = multitimer_tui::utils::get_initial_timer_colors();
    let (verb, a1, tag, a2) = split_command("  add\t10  Urgent  call   mom ", &tags);
    assert_eq!(verb, vec!['a', 'd', 'd']);
    assert_eq!(a1, "10");
    assert_eq!(tag.as_deref(), Some("urgent"));
    assert_eq!(a2, "call mom");
}

#[test]
fn remove_by_id() {
    let mut c = config();
    parse_input("add 1 a", &mut c).unwrap();
    parse_input("add 2 b", &mut c).unwrap();
    parse_input("add 3 c", &mut c).unwrap();
    parse_input("rm 1", &mut c).unwrap();
    assert_eq!(descriptions(&c), vec!["a", "c"]);
    assert_eq!(c.timers[1].id, 1);
    remove_timer("x", &mut c);
    remove_timer("7", &mut c);
    assert_eq!(descriptions(&c), vec!["a", "c"]);
}

#[test]
fn clear_empties_collection() {
    let mut c = config();
    parse_input("add 1 a", &mut c).unwrap();
    parse_input("clear", &mut c).unwrap();
    assert!(c.timers.is_empty());
}

#[test]
fn move_reorders_and_rejects_out_of_range() {
    let mut c = config();
    parse_input("add 1 a", &mut c).unwrap();
    parse_input("add 2 b", &mut c).unwrap();
    parse_input("add 3 c", &mut c).unwrap();
    assert_eq!(parse_input("mv 0 2", &mut c), Ok(()));
    assert_eq!(descriptions(&c), vec!["b", "c", "a"]);
    assert_eq!(move_timer("0", "3", &mut c), Err(CommandError::IndexOutOfRange));
    assert_eq!(move_timer("0", "x", &mut c), Ok(()));
    assert_eq!(descriptions(&c), vec!["b", "c", "a"]);
}

#[test]
fn move_up_and_down() {
    let mut c = config();
    parse_input("add 1 a", &mut c).unwrap();
    parse_input("add 2 b", &mut c).unwrap();
    assert_eq!(parse_input("mu 1", &mut c), Ok(()));
    assert_eq!(descriptions(&c), vec!["b", "a"]);
    assert_eq!(parse_input("movedown 0", &mut c), Ok(()));
    assert_eq!(descriptions(&c), vec!["a", "b"]);
    assert_eq!(move_timer_up("0", &mut c), Err(CommandError::IndexOutOfRange));
    assert_eq!(move_timer_down("1", &mut c), Err(CommandError::IndexOutOfRange));
    assert_eq!(move_timer_up("nope", &mut c), Ok(()));
    assert_eq!(descriptions(&c), vec!["a", "b"]);
}

#[test]
fn rename_by_id() {
    let mut c = config();
    parse_input("add 1 a", &mut c).unwrap();
    parse_input("rn 0 Brand new", &mut c).unwrap();
    assert_eq!(c.timers[0].description, "Brand new");
    rename_timer("9".to_string(), &mut c, "x".to_string());
    assert_eq!(c.timers[0].description, "Brand new");
}

#[test]
fn unknown_and_empty_input_change_nothing() {
    let mut c = config();
    parse_input("add 1 a", &mut c).unwrap();
    assert_eq!(parse_input("", &mut c), Ok(()));
    assert_eq!(parse_input("dance 1 2", &mut c), Ok(()));
    assert_eq!(parse_input("plus x 2", &mut c), Ok(()));
    assert_eq!(remaining(&c), vec![60]);
}

#[test]
fn commands_renumber_ids() {
    let mut c = config();
    parse_input("add 1 a", &mut c).unwrap();
    parse_input("add 2 b", &mut c).unwrap();
    parse_input("add 3 c", &mut c).unwrap();
    parse_input("mv 2 0", &mut c).unwrap();
    let ids: Vec<usize> = c.timers.iter().map(|t| t.id).collect();
    assert_eq!(ids, vec![0, 1, 2]);
    assert!(c.timers.iter().all(|t| !t.is_active));
}


#[test]
fn merge_adds_initial_seconds_to_initial_time() {
    let mut c = config();
    let mut a = Timer::new("a".to_string(), 60, true, None);
    a.initial_time = 60;
    let mut b = Timer::new("b".to_string(), 120, true, None);
    b.initial_time = 200;
    c.timers.push(a);
    c.timers.push(b);
    c.update_timers();
    assert_eq!(merge_timers("0", "1", &mut c), Ok(()));
    assert_eq!(c.timers[0].timeleft_secs, 180);
    assert_eq!(c.timers[0].initial_time, 260);
}

#[test]
fn rejected_command_leaves_configuration_alone() {
    let mut c = config();
    parse_input("add 1 a", &mut c).unwrap();
    parse_input("add 2 b", &mut c).unwrap();
    c.tick_all();
    assert!(c.timers[0].is_active);
    let ends: Vec<i64> = c.timers.iter().map(|t| t.endtime).collect();
    assert_eq!(parse_input("mu 0", &mut c), Err(CommandError::IndexOutOfRange));
    assert_eq!(parse_input("md 1", &mut c), Err(CommandError::IndexOutOfRange));
    assert_eq!(parse_input("merge 1 0", &mut c), Err(CommandError::IndexOutOfRange));
    assert_eq!(parse_input("move 0 9", &mut c), Err(CommandError::IndexOutOfRange));
    assert!(c.timers[0].is_active);
    assert_eq!(c.timers.iter().map(|t| t.endtime).collect::<Vec<i64>>(), ends);
    assert_eq!(remaining(&c), vec![59, 120]);
}

#[test]
fn command_words_with_lowered_tag() {
    let tags = multitimer_tui::utils::get_initial_timer_colors();
    let words: Vec<Vec<char>> = ["add", "00:00:05", "Test"].iter().map(|w| w.chars().collect()).collect();
    let (verb, a1, tag, a2) = command_from_words(&words, "test".to_string(), &tags);
    assert_eq!(verb, vec!['a', 'd', 'd']);
    assert_eq!(a1, "00:00:05");
    assert_eq!(tag, None);
    assert_eq!(a2, "Test");
    let words: Vec<Vec<char>> = ["a", "5", "Break", "tea", "time"].iter().map(|w| w.chars().collect()).collect();
    let (_, _, tag, a2) = command_from_words(&words, "break".to_string(), &tags);
    assert_eq!(tag.as_deref(), Some("break"));
    assert_eq!(a2, "tea time");
}
