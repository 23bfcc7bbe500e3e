use multitimer_tui::color::AcceptedColors;
use multitimer_tui::configuration::Configuration;
use multitimer_tui::input_field::InputField;
use multitimer_tui::text::{chars_of, parse_i32, parse_unsigned, split_words};
use multitimer_tui::ui_states::{ConfigType, TimerAction, UiState};
use multitimer_tui::utils::{get_initial_timer_colors, reverse_bool};

#[test]
fn reverse_bool_texts() {
    assert_eq!(reverse_bool("true"), "false");
    assert_eq!(reverse_bool("false"), "true");
    assert_eq!(reverse_bool("yes"), "true");
}

#[test]
fn initial_colors() {
    let t = get_initial_timer_colors();
    assert_eq!(t.len(), 9);
    assert_eq!(t[0], ("urgent".to_string(), "Red".to_string()));
    assert_eq!(t[4], ("focus".to_string(), "Magenta".to_string()));
    assert_eq!(t[8], ("coding".to_string(), "LightGreen".to_string()));
}

#[test]
fn colour_cycle() {
    assert_eq!(AcceptedColors::White.next_color(), AcceptedColors::Black);
    assert_eq!(AcceptedColors::Black.previous_color(), AcceptedColors::White);
    assert_eq!(AcceptedColors::Cyan.next_color(), AcceptedColors::Gray);
    assert_eq!(AcceptedColors::from_name("LightBlue"), AcceptedColors::LightBlue);
    assert_eq!(AcceptedColors::from_name("Mauve"), AcceptedColors::Green);
    assert_eq!(AcceptedColors::DarkGray.name(), "DarkGray");
}

#[test]
fn action_cycle_and_names() {
    assert_eq!(TimerAction::Shutdown.next(), TimerAction::NoAction);
    let mut a = TimerAction::NoAction;
    assert_eq!(a.previous(), TimerAction::Shutdown);
    assert_eq!(TimerAction::from_name("Hibernate"), TimerAction::Hibernate);
    assert_eq!(TimerAction::from_name("Reboot"), TimerAction::NoAction);
    assert_eq!(TimerAction::NoAction.name(), "None");
}

#[test]
fn config_rows_and_tabs() {
    let mut t = ConfigType::default();
    t.previous();
    assert_eq!(t, ConfigType::PomodoroBigBreak);
    t.next();
    assert_eq!(t, ConfigType::DarkMode);
    assert_eq!(UiState::get_current_ui(0), UiState::TimerUi);
    assert_eq!(UiState::get_current_ui(1), UiState::ConfigUi);
    assert_eq!(UiState::get_current_ui(2), UiState::SetsUi);
    assert_eq!(UiState::get_current_ui(9), UiState::TimerUi);
}

#[test]
fn tab_switching() {
    let mut c = Configuration::new(25, 5, 10);
    c.next();
    assert_eq!(c.index, 0);
    c.titles = vec!["Timer".to_string(), "Config".to_string(), "Sets".to_string()];
    c.previous();
    assert_eq!(c.index, 2);
    c.next();
    assert_eq!(c.index, 0);
}

#[test]
fn table_navigation() {
    let mut c = Configuration::new(25, 5, 10);
    c.index = 1;
    c.next_table_entry();
    assert_eq!(c.table_state_config, Some(0));
    assert_eq!(c.config_type, ConfigType::ActiveColor);
    c.previous_table_entry();
    c.previous_table_entry();
    assert_eq!(c.table_state_config, Some(6));
    assert_eq!(c.config_type, ConfigType::PomodoroBigBreak);
    c.index = 2;
    c.previous_table_entry();
    assert_eq!(c.table_state_sets, Some(0));
    c.table_state_sets = Some(7);
    c.next_table_entry();
    assert_eq!(c.table_state_sets, Some(0));
}

#[test]
fn clear_and_save_settings() {
    let mut c = Configuration::new(1, 2, 3);
    c.table_state_config = Some(5);
    c.pomodoro_time_table_str = "40".to_string();
    c.clear_table_entry();
    assert_eq!(c.pomodoro_time_table_str, "");
    c.pomodoro_smallbreak_table_str = "7".to_string();
    c.darkmode_str = "true".to_string();
    c.reverseadding_str = "true".to_string();
    c.activecolor_str = "Blue".to_string();
    assert!(c.table_texts_valid());
    c.save_table_changes();
    assert!(c.darkmode);
    assert!(c.reverseadding);
    assert!(!c.move_finished_timer);
    assert_eq!(c.activecolor, "Blue");
    assert_eq!(c.action_timeout, "None");
    assert_eq!(c.pomodoro_time, 25);
    assert_eq!(c.pomodoro_time_table_str, "25");
    assert_eq!(c.pomodoro_smallbreak, 7);
    assert_eq!(c.pomodoro_bigbreak, 10);
    assert_eq!(c.pomodoro_bigbreak_table_str, "10");
    c.pomodoro_bigbreak_table_str = "ten".to_string();
    assert!(!c.table_texts_valid());
}

#[test]
fn step_setting_values() {
    let mut c = Configuration::new(25, 5, 10);
    c.config_type = ConfigType::PomodoroTime;
    c.pomodoro_time_table_str = "99".to_string();
    c.move_value_right();
    assert_eq!(c.pomodoro_time_table_str, "99");
    c.move_value_left();
    assert_eq!(c.pomodoro_time_table_str, "98");
    c.pomodoro_time_table_str = "0".to_string();
    c.move_value_left();
    assert_eq!(c.pomodoro_time_table_str, "0");
    c.pomodoro_time_table_str = "x".to_string();
    assert!(!c.selected_text_valid());
    c.config_type = ConfigType::ActiveColor;
    c.activecolor_str = "White".to_string();
    c.move_value_right();
    assert_eq!(c.activecolor_str, "Black");
    c.move_value_left();
    assert_eq!(c.activecolor_str, "White");
    c.config_type = ConfigType::ActionAfterTimer;
    c.action_timeout_str = "None".to_string();
    c.move_value_left();
    assert_eq!(c.action_timeout_str, "Shutdown");
    c.config_type = ConfigType::DarkMode;
    c.darkmode_str = "true".to_string();
    c.move_value_right();
    assert_eq!(c.darkmode_str, "false");
}

#[test]
fn input_field_editing() {
    let mut f = InputField::new();
    f.insert_char('a');
    f.insert_char('c');
    f.move_cursor_left();
    f.insert_char('b');
    assert_eq!(f.content, "abc");
    assert_eq!(f.cursor_position, 2);
    f.move_cursor_right();
    f.move_cursor_right();
    assert_eq!(f.cursor_position, 3);
    f.delete_char();
    assert_eq!(f.content, "ab");
    f.cursor_position = 0;
    f.delete_char();
    assert_eq!(f.content, "ab");
    f.insert_char('é');
    assert_eq!(f.content, "éab");
}

#[test]
fn input_field_history() {
    let mut f = InputField::default();
    f.move_history_down();
    assert_eq!(f.content, "");
    assert_eq!(f.history_position, 0);
    f.content_history = vec!["add 1 a".to_string(), "rm 0".to_string()];
    f.history_position = 2;
    f.move_history_up();
    assert_eq!(f.content, "rm 0");
    assert_eq!(f.cursor_position, 4);
    f.move_history_up();
    assert_eq!(f.content, "add 1 a");
    f.move_history_up();
    assert_eq!(f.history_position, 0);
    f.move_history_down();
    assert_eq!(f.content, "rm 0");
    f.move_history_down();
    assert_eq!(f.content, "");
    assert_eq!(f.history_position, 2);
}

#[test]
fn number_parsing() {
    assert_eq!(parse_unsigned(&chars_of("+42"), u64::MAX), Some(42));
    assert_eq!(parse_unsigned(&chars_of("65535"), u16::MAX as u64), Some(65535));
    assert_eq!(parse_unsigned(&chars_of("65536"), u16::MAX as u64), None);
    assert_eq!(parse_unsigned(&chars_of("+"), u64::MAX), None);
    assert_eq!(parse_unsigned(&chars_of(""), u64::MAX), None);
    assert_eq!(parse_unsigned(&chars_of("-1"), u64::MAX), None);
    assert_eq!(parse_i32(&chars_of("-2147483648")), Some(i32::MIN));
    assert_eq!(parse_i32(&chars_of("2147483648")), None);
    assert_eq!(parse_i32(&chars_of("-")), None);
}

#[test]
fn word_splitting() {
    let words = split_words(&chars_of("\u{3000}rm\u{a0}3  x\n"));
    let words: Vec<String> = words.iter().map(|w| w.iter().collect()).collect();
    assert_eq!(words, vec!["rm", "3", "x"]);
}
