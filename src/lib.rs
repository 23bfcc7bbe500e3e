//! A multi-timer: countdowns in two lanes, advanced one second per step, edited by
//! short text commands, with a pomodoro helper and a settings table.

pub mod color;
pub mod configuration;
pub mod input_field;
pub mod keys;
pub mod text;
pub mod tick;
pub mod timer;
pub mod timer_logic;
pub mod ui_states;
pub mod utils;
