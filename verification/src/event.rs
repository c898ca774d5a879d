//! Phase events and the desktop notification that announces them.
//!
//! The library decides which event is due and what the notification says.
//! Sending it is left to the caller.

use vstd::prelude::*;
use vstd::string::*;

verus! {

/// What a notification announces.
#[derive(Clone, Copy, Debug, PartialEq, Eq, Structural)]
pub enum PomodoroEvent {
    /// A focus session begins.
    Pomodoro,
    /// A short break begins.
    ShortBreak,
    /// A long break begins.
    LongBreak,
    /// Something went wrong.
    Error,
}

impl PomodoroEvent {
    /// The message of the notification.
    pub open spec fn message_text(self) -> Seq<char> {
        match self {
            PomodoroEvent::Pomodoro => "Time for a Pomodoro session!"@,
            PomodoroEvent::ShortBreak => "Take a short break."@,
            PomodoroEvent::LongBreak => "Take a long break."@,
            PomodoroEvent::Error => "An error occurred."@,
        }
    }

    /// The name of the notification's icon.
    pub open spec fn icon_text(self) -> Seq<char> {
        match self {
            PomodoroEvent::Pomodoro => "tomato"@,
            PomodoroEvent::ShortBreak => "coffee"@,
            PomodoroEvent::LongBreak => "rest"@,
            PomodoroEvent::Error => "dialog-error"@,
        }
    }

    /// The message of the notification.
    pub fn message(&self) -> (text: &'static str)
        ensures
            text@ == self.message_text(),
    {
        match self {
            PomodoroEvent::Pomodoro => "Time for a Pomodoro session!",
            PomodoroEvent::ShortBreak => "Take a short break.",
            PomodoroEvent::LongBreak => "Take a long break.",
            PomodoroEvent::Error => "An error occurred.",
        }
    }

    /// The name of the notification's icon.
    pub fn icon(&self) -> (text: &'static str)
        ensures
            text@ == self.icon_text(),
    {
        match self {
            PomodoroEvent::Pomodoro => "tomato",
            PomodoroEvent::ShortBreak => "coffee",
            PomodoroEvent::LongBreak => "rest",
            PomodoroEvent::Error => "dialog-error",
        }
    }
}

/// The shell command that shows the notification of `event` and, where a
/// sound file is given, plays it afterwards.
pub open spec fn notification_command_text(
    event: PomodoroEvent,
    sound_file: Option<Seq<char>>,
) -> Seq<char> {
    let shown = "dunstify -i "@ + event.icon_text() + " '"@ + event.message_text() + "'"@;
    match sound_file {
        Some(path) => shown + " && aplay "@ + path,
        None => shown,
    }
}

/// The shell command that shows the notification of `event` and, where a
/// sound file is given, plays it afterwards.
pub fn notification_command(event: PomodoroEvent, sound_file: Option<&str>) -> (command: String)
    ensures
        command@ == notification_command_text(
            event,
            match sound_file {
                Some(path) => Some(path@),
                None => None,
            },
        ),
{
    let mut command = String::from_str("dunstify -i ");
    command.append(event.icon());
    command.append(" '");
    command.append(event.message());
    command.append("'");
    match sound_file {
        Some(path) => {
            command.append(" && aplay ");
            command.append(path);
        },
        None => {},
    }
    command
}

} // verus!
