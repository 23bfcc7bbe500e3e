use multitimer_tui::configuration::Configuration;
use multitimer_tui::input_field::InputField;
use multitimer_tui::keys::{handle_key_press, Key, KeyEffect};
use multitimer_tui::ui_states::ConfigType;

fn setup() -> (Configuration, InputField, bool) {
    let mut c = Configuration::new(25, 5, 10);
    c.titles = vec!["Timer".to_string(), "Config".to_string(), "Sets".to_string()];
    (c, InputField::new(), false)
}

fn type_line(line: &str, c: &mut Configuration, f: &mut InputField, p: &mut bool) {
    for ch in line.chars() {
        assert_eq!(handle_key_press(Key::Char(ch), c, f, p), KeyEffect::Nothing);
    }
}

#[test]
fn typing_and_entering_a_command() {
    let (mut c, mut f, mut p) = setup();
    type_line("add 2 tea", &mut c, &mut f, &mut p);
    assert_eq!(f.content, "add 2 tea");
    assert_eq!(handle_key_press(Key::Enter, &mut c, &mut f, &mut p), KeyEffect::SaveConfig);
    assert_eq!(c.timers.len(), 1);
    assert_eq!(c.timers[0].timeleft_secs, 120);
    assert_eq!(f.content, "");
    assert_eq!(f.content_history, vec!["add 2 tea".to_string()]);
    assert_eq!(f.history_position, 1);
    handle_key_press(Key::Up, &mut c, &mut f, &mut p);
    assert_eq!(f.content, "add 2 tea");
}

#[test]
fn quit_pause_and_help_on_empty_line() {
    let (mut c, mut f, mut p) = setup();
    assert_eq!(handle_key_press(Key::Char(' '), &mut c, &mut f, &mut p), KeyEffect::Nothing);
    assert!(p);
    handle_key_press(Key::Char('h'), &mut c, &mut f, &mut p);
    assert!(c.show_popup);
    assert_eq!(handle_key_press(Key::Char('q'), &mut c, &mut f, &mut p), KeyEffect::Quit);
    type_line("x q", &mut c, &mut f, &mut p);
    assert_eq!(f.content, "x q");
    handle_key_press(Key::Esc, &mut c, &mut f, &mut p);
    assert_eq!(f.content, "");
}

#[test]
fn settings_tab_keys() {
    let (mut c, mut f, mut p) = setup();
    handle_key_press(Key::Tab, &mut c, &mut f, &mut p);
    assert_eq!(c.index, 1);
    c.load_table_texts();
    handle_key_press(Key::Down, &mut c, &mut f, &mut p);
    assert_eq!(c.config_type, ConfigType::ActiveColor);
    handle_key_press(Key::Right, &mut c, &mut f, &mut p);
    assert_eq!(c.activecolor_str, "Yellow");
    assert_eq!(handle_key_press(Key::Enter, &mut c, &mut f, &mut p), KeyEffect::SaveConfig);
    assert_eq!(c.activecolor, "Yellow");
    c.pomodoro_time_table_str = "abc".to_string();
    assert_eq!(handle_key_press(Key::Enter, &mut c, &mut f, &mut p), KeyEffect::Nothing);
    assert_eq!(c.pomodoro_time, 25);
}

#[test]
fn sets_tab_keys() {
    let (mut c, mut f, mut p) = setup();
    c.index = 2;
    assert_eq!(handle_key_press(Key::Esc, &mut c, &mut f, &mut p), KeyEffect::SaveSet);
    assert_eq!(handle_key_press(Key::Delete, &mut c, &mut f, &mut p), KeyEffect::DeleteSet);
    assert_eq!(handle_key_press(Key::Enter, &mut c, &mut f, &mut p), KeyEffect::ApplySet);
    handle_key_press(Key::Down, &mut c, &mut f, &mut p);
    assert_eq!(c.table_state_sets, Some(0));
    handle_key_press(Key::Tab, &mut c, &mut f, &mut p);
    assert_eq!(c.index, 0);
}
