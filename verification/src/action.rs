//! Output commands and what each one means for the line.

use vstd::prelude::*;

verus! {

/// A command on the tape: the level that the output line should take.
#[derive(Clone, Copy, Debug, PartialEq, Eq, Structural)]
pub enum Action {
    High,
    Low,
}

/// A logic level as the output device sees it.
#[derive(Clone, Copy, Debug, PartialEq, Eq, Structural)]
pub enum Level {
    High,
    Low,
}

/// What has to happen on the line for one action: the level to drive and the
/// event to hand to the log.
#[derive(Clone, Copy, Debug, PartialEq, Eq)]
pub struct LineCommand {
    pub level: Level,
    pub event: &'static str,
}

impl Action {
    /// The level that this action drives.
    pub open spec fn level(self) -> Level {
        match self {
            Action::High => Level::High,
            Action::Low => Level::Low,
        }
    }

    /// The text of the event that records this action.
    pub open spec fn event_text(self) -> Seq<char> {
        match self {
            Action::High => "On!"@,
            Action::Low => "Off!"@,
        }
    }
}

/// Decides what an action asks of the output line. The caller drives the
/// level and logs the event; the device's answer goes to the playback
/// machine.
pub fn led_action(action: Action) -> (command: LineCommand)
    ensures
        command.level == action.level(),
        command.event@ == action.event_text(),
{
    match action {
        Action::High => LineCommand { level: Level::High, event: "On!" },
        Action::Low => LineCommand { level: Level::Low, event: "Off!" },
    }
}

} // verus!
