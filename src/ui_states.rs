use vstd::prelude::*;
use crate::text::{chars_of, same_chars};

verus! {

/// The tab that the interface shows.
#[derive(PartialEq, Eq, Structural, Clone, Copy, Debug)]
pub enum UiState {
    TimerUi,
    ConfigUi,
    SetsUi,
}

impl UiState {
    /// The tab at position `index`; an unknown position shows the timers.
    pub fn get_current_ui(index: usize) -> (r: Self)
        ensures
            r == (if index == 1 {
                UiState::ConfigUi
            } else if index == 2 {
                UiState::SetsUi
            } else {
                UiState::TimerUi
            }),
    {
        match index {
            0 => UiState::TimerUi,
            1 => UiState::ConfigUi,
            2 => UiState::SetsUi,
            _ => UiState::TimerUi,
        }
    }
}

/// The rows of the settings table, in order.
#[derive(PartialEq, Eq, Structural, Clone, Copy, Debug)]
pub enum ConfigType {
    DarkMode,
    ActiveColor,
    ReverseAddingTimer,
    MoveFinishedTimer,
    ActionAfterTimer,
    PomodoroTime,
    PomodoroSmallBreak,
    PomodoroBigBreak,
}

impl Default for ConfigType {
    fn default() -> (r: Self)
        ensures
            r == ConfigType::DarkMode,
    {
        ConfigType::DarkMode
    }
}

impl ConfigType {
    /// Position of the row in the settings table.
    pub open spec fn ordinal(self) -> nat {
        match self {
            ConfigType::DarkMode => 0,
            ConfigType::ActiveColor => 1,
            ConfigType::ReverseAddingTimer => 2,
            ConfigType::MoveFinishedTimer => 3,
            ConfigType::ActionAfterTimer => 4,
            ConfigType::PomodoroTime => 5,
            ConfigType::PomodoroSmallBreak => 6,
            ConfigType::PomodoroBigBreak => 7,
        }
    }

    /// Moves to the following row, from the last back to the first.
    pub fn next(&mut self)
        ensures
            final(self).ordinal() == (old(self).ordinal() + 1) % 8,
    {
        *self = match *self {
            ConfigType::DarkMode => ConfigType::ActiveColor,
            ConfigType::ActiveColor => ConfigType::ReverseAddingTimer,
            ConfigType::ReverseAddingTimer => ConfigType::MoveFinishedTimer,
            ConfigType::MoveFinishedTimer => ConfigType::ActionAfterTimer,
            ConfigType::ActionAfterTimer => ConfigType::PomodoroTime,
            ConfigType::PomodoroTime => ConfigType::PomodoroSmallBreak,
            ConfigType::PomodoroSmallBreak => ConfigType::PomodoroBigBreak,
            ConfigType::PomodoroBigBreak => ConfigType::DarkMode,
        };
    }

    /// Moves to the preceding row, from the first back to the last.
    pub fn previous(&mut self)
        ensures
            final(self).ordinal() == (old(self).ordinal() + 7) % 8,
    {
        *self = match *self {
            ConfigType::DarkMode => ConfigType::PomodoroBigBreak,
            ConfigType::ActiveColor => ConfigType::DarkMode,
            ConfigType::ReverseAddingTimer => ConfigType::ActiveColor,
            ConfigType::MoveFinishedTimer => ConfigType::ReverseAddingTimer,
            ConfigType::ActionAfterTimer => ConfigType::MoveFinishedTimer,
            ConfigType::PomodoroTime => ConfigType::ActionAfterTimer,
            ConfigType::PomodoroSmallBreak => ConfigType::PomodoroTime,
            ConfigType::PomodoroBigBreak => ConfigType::PomodoroSmallBreak,
        }
    }
}

/// What the machine does once every timer has run out.
#[derive(PartialEq, Eq, Structural, Clone, Copy, Debug)]
pub enum TimerAction {
    NoAction,
    Hibernate,
    Shutdown,
}

/// The name under which an action is stored.
pub open spec fn action_name(a: TimerAction) -> Seq<char> {
    match a {
        TimerAction::NoAction => "None"@,
        TimerAction::Hibernate => "Hibernate"@,
        TimerAction::Shutdown => "Shutdown"@,
    }
}

/// The action stored under `s`; an unknown name stands for no action.
pub open spec fn action_named(s: Seq<char>) -> TimerAction {
    if s == "Hibernate"@ {
        TimerAction::Hibernate
    } else if s == "Shutdown"@ {
        TimerAction::Shutdown
    } else {
        TimerAction::NoAction
    }
}

/// The action at position `k` of the cycle, for `k < 3`.
pub open spec fn action_at(k: nat) -> TimerAction {
    seq![TimerAction::NoAction, TimerAction::Hibernate, TimerAction::Shutdown][k as int]
}

impl TimerAction {
    pub open spec fn ordinal(self) -> nat {
        match self {
            TimerAction::NoAction => 0,
            TimerAction::Hibernate => 1,
            TimerAction::Shutdown => 2,
        }
    }

    /// The following action, from the last back to the first.
    pub fn next(&self) -> (r: Self)
        ensures
            r.ordinal() == (self.ordinal() + 1) % 3,
    {
        match self {
            TimerAction::NoAction => TimerAction::Hibernate,
            TimerAction::Hibernate => TimerAction::Shutdown,
            TimerAction::Shutdown => TimerAction::NoAction,
        }
    }

    /// The preceding action, from the first back to the last.
    pub fn previous(&mut self) -> (r: Self)
        ensures
            r.ordinal() == (old(self).ordinal() + 2) % 3,
            *final(self) == *old(self),
    {
        match self {
            TimerAction::NoAction => TimerAction::Shutdown,
            TimerAction::Hibernate => TimerAction::NoAction,
            TimerAction::Shutdown => TimerAction::Hibernate,
        }
    }

    /// The name under which the action is stored and shown.
    pub fn name(&self) -> (r: String)
        ensures
            r@ == action_name(*self),
    {
        match self {
            TimerAction::NoAction => String::from_str("None"),
            TimerAction::Hibernate => String::from_str("Hibernate"),
            TimerAction::Shutdown => String::from_str("Shutdown"),
        }
    }

    /// Reads a stored name; an unknown one gives `NoAction`.
    pub fn from_name(s: &str) -> (r: Self)
        ensures
            r == action_named(s@),
    {
        let v = chars_of(s);
        if same_chars(&v, &chars_of("Hibernate")) {
            TimerAction::Hibernate
        } else if same_chars(&v, &chars_of("Shutdown")) {
            TimerAction::Shutdown
        } else {
            TimerAction::NoAction
        }
    }
}

} // verus!
