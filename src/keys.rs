use vstd::prelude::*;
use crate::configuration::{
    entry_cleared, next_tab, selected_text_ok, table_moved, table_saved,
    table_texts_ok, Configuration,
};
use crate::input_field::{
    deleted, history_down, history_up, inserted, moved_left, moved_right, InputField,
};
use crate::text::chars_of;
use crate::timer_logic::{input_applied, parse_input};
use crate::ui_states::UiState;

verus! {

/// A key press, as far as the program tells keys apart.
#[derive(PartialEq, Eq, Structural, Clone, Copy, Debug)]
pub enum Key {
    Tab,
    Left,
    Right,
    Up,
    Down,
    Esc,
    Enter,
    Backspace,
    Delete,
    Char(char),
    Other,
}

/// Work outside the library that a key press calls for.
#[derive(PartialEq, Eq, Structural, Clone, Copy, Debug)]
pub enum KeyEffect {
    Nothing,
    /// Leave the program.
    Quit,
    /// Write the configuration to its file.
    SaveConfig,
    /// Save the timers as a new named set.
    SaveSet,
    /// Delete the selected set.
    DeleteSet,
    /// Replace the timers by those of the selected set.
    ApplySet,
}

/// `f` is `o` after its line was entered: the line added to the history, the history
/// position advanced, and an empty line with the cursor at its start.
pub open spec fn committed(o: InputField, f: InputField) -> bool {
    let n = o.content_history@.len();
    &&& f.content_history@.len() == n + 1
    &&& f.content_history@.take(n as int) == o.content_history@
    &&& f.content_history@[n as int]@ == o.content@
    &&& f.history_position == if o.history_position < usize::MAX {
        o.history_position + 1
    } else {
        o.history_position as int
    }
    &&& f.content@.len() == 0
    &&& f.cursor_position == 0
}

/// Nothing but the configuration changed.
pub open spec fn only_config(
    fi: InputField,
    fp: bool,
    oi: InputField,
    op: bool,
    r: KeyEffect,
    effect: KeyEffect,
) -> bool {
    fi == oi && fp == op && r == effect
}

/// What a key does on the timers tab.
pub open spec fn timer_key(
    key: Key,
    oc: Configuration,
    oi: InputField,
    op: bool,
    fc: Configuration,
    fi: InputField,
    fp: bool,
    r: KeyEffect,
) -> bool {
    let empty = oi.content@.len() == 0;
    match key {
        Key::Tab => fc == next_tab(oc) && only_config(fi, fp, oi, op, r, KeyEffect::Nothing),
        Key::Left => fc == oc && moved_left(oi, fi) && fp == op && r == KeyEffect::Nothing,
        Key::Right => fc == oc && moved_right(oi, fi) && fp == op && r == KeyEffect::Nothing,
        Key::Up => fc == oc && history_up(oi, fi) && fp == op && r == KeyEffect::Nothing,
        Key::Down => fc == oc && history_down(oi, fi) && fp == op && r == KeyEffect::Nothing,
        Key::Esc => {
            &&& fc == oc
            &&& fi.content@.len() == 0
            &&& fi.cursor_position == 0
            &&& fi.content_history == oi.content_history
            &&& fi.history_position == oi.history_position
            &&& fp == op
            &&& r == KeyEffect::Nothing
        },
        Key::Enter => {
            &&& exists|e| #[trigger] input_applied(oi.content@, oc, fc, e)
            &&& committed(oi, fi)
            &&& fp == op
            &&& r == KeyEffect::SaveConfig
        },
        Key::Char(c) => if empty && c == 'h' {
            fc == (Configuration { show_popup: !oc.show_popup, ..oc }) && only_config(
                fi,
                fp,
                oi,
                op,
                r,
                KeyEffect::Nothing,
            )
        } else if empty && c == ' ' {
            fc == oc && fi == oi && fp == !op && r == KeyEffect::Nothing
        } else if oi.content@.len() < usize::MAX {
            fc == oc && inserted(oi, fi, c) && fp == op && r == KeyEffect::Nothing
        } else {
            fc == oc && only_config(fi, fp, oi, op, r, KeyEffect::Nothing)
        },
        Key::Backspace => fc == oc && deleted(oi, fi) && fp == op && r == KeyEffect::Nothing,
        _ => fc == oc && only_config(fi, fp, oi, op, r, KeyEffect::Nothing),
    }
}

/// What a key does on the tab of saved sets.
pub open spec fn sets_key(key: Key, oc: Configuration, fc: Configuration, r: KeyEffect) -> bool {
    match key {
        Key::Tab => fc == next_tab(oc) && r == KeyEffect::Nothing,
        Key::Esc => fc == oc && r == KeyEffect::SaveSet,
        Key::Delete | Key::Backspace => fc == oc && r == KeyEffect::DeleteSet,
        Key::Enter => fc == oc && r == KeyEffect::ApplySet,
        Key::Up => table_moved(oc, fc, false) && r == KeyEffect::Nothing,
        Key::Down => table_moved(oc, fc, true) && r == KeyEffect::Nothing,
        _ => fc == oc && r == KeyEffect::Nothing,
    }
}

/// What a key does on the settings tab. Saving or stepping a text that cannot be read
/// changes nothing.
pub open spec fn config_key(key: Key, oc: Configuration, fc: Configuration, r: KeyEffect) -> bool {
    match key {
        Key::Tab => fc == next_tab(oc) && r == KeyEffect::Nothing,
        Key::Esc => entry_cleared(oc, fc) && r == KeyEffect::Nothing,
        Key::Enter => if table_texts_ok(oc) {
            table_saved(oc, fc) && r == KeyEffect::SaveConfig
        } else {
            fc == oc && r == KeyEffect::Nothing
        },
        Key::Up => table_moved(oc, fc, false) && r == KeyEffect::Nothing,
        Key::Down => table_moved(oc, fc, true) && r == KeyEffect::Nothing,
        Key::Right | Key::Left => r == KeyEffect::Nothing && if selected_text_ok(oc) {
            crate::configuration::setting_stepped(oc, fc, key == Key::Right)
        } else {
            fc == oc
        },
        _ => fc == oc && r == KeyEffect::Nothing,
    }
}

/// What a key press does: `q` on an empty line quits; otherwise the shown tab decides.
pub open spec fn key_handled(
    key: Key,
    oc: Configuration,
    oi: InputField,
    op: bool,
    fc: Configuration,
    fi: InputField,
    fp: bool,
    r: KeyEffect,
) -> bool {
    if oi.content@.len() == 0 && key == Key::Char('q') {
        fc == oc && only_config(fi, fp, oi, op, r, KeyEffect::Quit)
    } else if oc.index == 1 {
        config_key(key, oc, fc, r) && fi == oi && fp == op
    } else if oc.index == 2 {
        sets_key(key, oc, fc, r) && fi == oi && fp == op
    } else {
        timer_key(key, oc, oi, op, fc, fi, fp, r)
    }
}

fn commit_line(input_field: &mut InputField)
    ensures
        committed(*old(input_field), *final(input_field)),
{
    let line = input_field.content.clone();
    input_field.content_history.push(line);
    input_field.history_position = input_field.history_position.saturating_add(1);
    input_field.content = String::new();
    input_field.cursor_position = 0;
    assert(input_field.content_history@.take(old(input_field).content_history@.len() as int)
        =~= old(input_field).content_history@);
}

fn timer_tab_key(key: Key, config: &mut Configuration, input_field: &mut InputField, pause_flag: &mut bool) -> (r: KeyEffect)
    ensures
        timer_key(
            key,
            *old(config),
            *old(input_field),
            *old(pause_flag),
            *final(config),
            *final(input_field),
            *final(pause_flag),
            r,
        ),
{
    let len = chars_of(input_field.content.as_str()).len();
    match key {
        Key::Tab => config.next(),
        Key::Left => input_field.move_cursor_left(),
        Key::Right => input_field.move_cursor_right(),
        Key::Up => input_field.move_history_up(),
        Key::Down => input_field.move_history_down(),
        Key::Esc => {
            input_field.content = String::new();
            input_field.cursor_position = 0;
        },
        Key::Enter => {
            let e = parse_input(input_field.content.as_str(), config);
            commit_line(input_field);
            return KeyEffect::SaveConfig;
        },
        Key::Char(c) => {
            if len == 0 && c == 'h' {
                config.show_popup = !config.show_popup;
            } else if len == 0 && c == ' ' {
                *pause_flag = !*pause_flag;
            } else if len < usize::MAX {
                input_field.insert_char(c);
            }
        },
        Key::Backspace => input_field.delete_char(),
        _ => {},
    }
    KeyEffect::Nothing
}

/// Carries out a key press on the configuration, the command line and the pause flag,
/// and says what work with files it calls for.
pub fn handle_key_press(
    key: Key,
    config: &mut Configuration,
    input_field: &mut InputField,
    pause_flag: &mut bool,
) -> (r: KeyEffect)
    ensures
        key_handled(
            key,
            *old(config),
            *old(input_field),
            *old(pause_flag),
            *final(config),
            *final(input_field),
            *final(pause_flag),
            r,
        ),
{
    if chars_of(input_field.content.as_str()).len() == 0 && key == Key::Char('q') {
        return KeyEffect::Quit;
    }
    match UiState::get_current_ui(config.index) {
        UiState::TimerUi => timer_tab_key(key, config, input_field, pause_flag),
        UiState::SetsUi => match key {
            Key::Tab => {
                config.next();
                KeyEffect::Nothing
            },
            Key::Esc => KeyEffect::SaveSet,
            Key::Delete | Key::Backspace => KeyEffect::DeleteSet,
            Key::Enter => KeyEffect::ApplySet,
            Key::Up => {
                config.previous_table_entry();
                KeyEffect::Nothing
            },
            Key::Down => {
                config.next_table_entry();
                KeyEffect::Nothing
            },
            _ => KeyEffect::Nothing,
        },
        UiState::ConfigUi => match key {
            Key::Tab => {
                config.next();
                KeyEffect::Nothing
            },
            Key::Esc => {
                config.clear_table_entry();
                KeyEffect::Nothing
            },
            Key::Enter => {
                if config.table_texts_valid() {
                    config.save_table_changes();
                    KeyEffect::SaveConfig
                } else {
                    KeyEffect::Nothing
                }
            },
            Key::Up => {
                config.previous_table_entry();
                KeyEffect::Nothing
            },
            Key::Down => {
                config.next_table_entry();
                KeyEffect::Nothing
            },
            Key::Right => {
                if config.selected_text_valid() {
                    config.move_value_right();
                }
                KeyEffect::Nothing
            },
            Key::Left => {
                if config.selected_text_valid() {
                    config.move_value_left();
                }
                KeyEffect::Nothing
            },
            _ => KeyEffect::Nothing,
        },
    }
}

} // verus!
