use multitimer_tui::configuration::Configuration;
use multitimer_tui::timer::{SavedTimer, Timer, TimerOutcome};
use multitimer_tui::timer_logic::parse_input;
use multitimer_tui::ui_states::TimerAction;

fn config() -> Configuration {
    Configuration::new(25, 5, 10)
}

#[test]
fn tick_on_spent_timers_changes_nothing() {
    let mut c = config();
    parse_input("add 0 a", &mut c).unwrap();
    parse_input("add2 0 b", &mut c).unwrap();
    let r = c.tick_all();
    assert_eq!(r.left, None);
    assert_eq!(r.right, None);
    assert_eq!(r.action, TimerAction::NoAction);
    assert!(c.timers.iter().all(|t| t.timeleft_secs == 0 && t.initial_time == 0 && !t.is_active));
    let names: Vec<String> = c.timers.iter().map(|t| t.description.clone()).collect();
    assert_eq!(names, vec!["0 a", "0 b"]);
}

#[test]
fn one_active_timer_per_lane() {
    let mut c = config();
    parse_input("add 1 l1", &mut c).unwrap();
    parse_input("add 1 l2", &mut c).unwrap();
    parse_input("add2 1 r1", &mut c).unwrap();
    parse_input("add2 1 r2", &mut c).unwrap();
    let r = c.tick_all();
    assert_eq!(r.left, Some(TimerOutcome::Running));
    assert_eq!(r.right, Some(TimerOutcome::Running));
    let active: Vec<bool> = c.timers.iter().map(|t| t.is_active).collect();
    assert_eq!(active, vec![true, false, true, false]);
    let left: Vec<u64> = c.timers.iter().map(|t| t.timeleft_secs).collect();
    assert_eq!(left, vec![59, 60, 59, 60]);
}

#[test]
fn finished_timer_moves_to_end() {
    let mut c = config();
    c.timers.push(Timer::new("quick".to_string(), 1, true, None));
    c.timers.push(Timer::new("slow".to_string(), 10, true, None));
    c.update_timers();
    let r = c.tick_all();
    assert_eq!(r.left, Some(TimerOutcome::JustFinished));
    let names: Vec<String> = c.timers.iter().map(|t| t.description.clone()).collect();
    assert_eq!(names, vec!["slow", "quick"]);
    assert_eq!(c.timers[0].id, 0);
    assert_eq!(c.timers[1].id, 1);
}

#[test]
fn finished_timer_stays_when_moving_is_off() {
    let mut c = config();
    c.move_finished_timer = false;
    c.timers.push(Timer::new("quick".to_string(), 1, true, None));
    c.timers.push(Timer::new("slow".to_string(), 10, true, None));
    c.tick_all();
    assert_eq!(c.timers[0].description, "quick");
    assert_eq!(c.timers[0].timeleft_secs, 0);
}

#[test]
fn both_lanes_finishing_move_later_one_first() {
    let mut c = config();
    c.timers.push(Timer::new("a".to_string(), 1, true, None));
    c.timers.push(Timer::new("b".to_string(), 1, false, None));
    c.timers.push(Timer::new("c".to_string(), 5, true, None));
    c.tick_all();
    let names: Vec<String> = c.timers.iter().map(|t| t.description.clone()).collect();
    assert_eq!(names, vec!["c", "b", "a"]);
}

#[test]
fn repeating_timer_rearms() {
    let mut t = Timer::new("rep".to_string(), 2, true, None);
    t.repeat_times = 1;
    assert_eq!(t.tick(), TimerOutcome::Running);
    assert!(t.is_active);
    assert_eq!(t.tick(), TimerOutcome::Rearmed);
    assert_eq!(t.timeleft_secs, 2);
    assert_eq!(t.repeat_times, 0);
    assert!(!t.is_active);
    t.tick();
    assert_eq!(t.tick(), TimerOutcome::JustFinished);
    assert_eq!(t.tick(), TimerOutcome::Running);
    assert_eq!(t.timeleft_secs, 0);
    assert!(!t.is_active);
}

#[test]
fn completion_action_runs_when_all_done() {
    let mut c = config();
    c.action_timeout = "Hibernate".to_string();
    parse_input("add 00:00:01 a", &mut c).unwrap();
    parse_input("add2 00:00:02 b", &mut c).unwrap();
    assert_eq!(c.timers[1].action_info, "(H)");
    assert_eq!(c.timers[0].action_info, "   ");
    let r = c.tick_all();
    assert_eq!(r.left, Some(TimerOutcome::JustFinished));
    assert_eq!(r.action, TimerAction::NoAction);
    let r = c.tick_all();
    assert_eq!(r.right, Some(TimerOutcome::JustFinished));
    assert_eq!(r.action, TimerAction::Hibernate);
}

#[test]
fn action_mark_prefers_left_on_tie() {
    let mut c = config();
    c.action_timeout = "Shutdown".to_string();
    parse_input("add 1 a", &mut c).unwrap();
    parse_input("add2 1 b", &mut c).unwrap();
    assert_eq!(c.timers[0].action_info, "(S)");
    assert_eq!(c.timers[1].action_info, "   ");
}

#[test]
fn end_times_follow_lane_order() {
    let mut c = config();
    parse_input("add 1 a", &mut c).unwrap();
    parse_input("add2 2 b", &mut c).unwrap();
    parse_input("add 3 c", &mut c).unwrap();
    c.update_timers_at(1000);
    let ends: Vec<i64> = c.timers.iter().map(|t| t.endtime).collect();
    assert_eq!(ends, vec![1060, 1120, 1240]);
    c.update_timers_at(i64::MAX - 10);
    assert_eq!(c.timers[2].endtime, i64::MAX);
}

#[test]
fn saved_timers_round_trip() {
    let mut c = config();
    parse_input("add 5 urgent write", &mut c).unwrap();
    parse_input("add2 00:01:00 read", &mut c).unwrap();
    c.timers[1].repeat_times = 3;
    let saved: Vec<SavedTimer> = c.saved_timers();
    let mut d = config();
    d.restore_timers(saved);
    assert_eq!(d.timers.len(), 2);
    for (a, b) in c.timers.iter().zip(d.timers.iter()) {
        assert_eq!(a.left_view, b.left_view);
        assert_eq!(a.description, b.description);
        assert_eq!(a.initial_time, b.initial_time);
        assert_eq!(a.timeleft_secs, b.timeleft_secs);
        assert_eq!(a.timer_type, b.timer_type);
        assert_eq!(a.repeat_times, b.repeat_times);
        assert_eq!(a.id, b.id);
    }
}

#[test]
fn formatted_line() {
    let mut t = Timer::new("Tea".to_string(), 3725, true, None);
    t.id = 4;
    assert_eq!(t.formatted_with("2024-01-01 10:00:00"), "01:02:05 (2024-01-01 10:00:00)        @4:Tea     ");
    t.repeat_times = 2;
    t.timeleft_secs = 360000;
    assert_eq!(t.formatted_with("x"), "100:00:00 (x)        @4:Tea     repeat: 2");
    let line = t.formatted();
    assert!(line.starts_with("100:00:00 ("));
    assert!(line.ends_with("@4:Tea     repeat: 2"));
}

#[test]
fn check_all_done_and_counts() {
    let mut c = config();
    assert!(c.check_all_timers_done());
    parse_input("add 1 a", &mut c).unwrap();
    parse_input("add2 0 b", &mut c).unwrap();
    assert!(!c.check_all_timers_done());
    assert_eq!(c.num_rightview_timers(), 1);
}
