use crate::command::SystemCommand;
use vstd::prelude::*;

verus! {

/// Input pins of the three operator buttons and output pins of the two
/// indicators.
pub const PIN_OFF: u8 = 13;
pub const PIN_ON: u8 = 6;
pub const PIN_QUIT: u8 = 16;
pub const PIN_RED_LED: u8 = 22;
pub const PIN_GREEN_LED: u8 = 23;
/// Time a button must stay high after a rising edge to count as pressed.
pub const DEBOUNCE_MS: u64 = 25;
/// Interval between two samples of the buttons.
pub const POLL_INTERVAL_MS: u64 = 50;

/// Levels of the two indicators.
#[derive(Debug, Clone, Copy, PartialEq, Eq, Structural)]
pub struct LedState {
    pub red: bool,
    pub green: bool,
}

/// Indicators for a broadcast command: On lights green alone, Off lights
/// red alone, Quit leaves them as they are.
pub open spec fn command_leds(command: SystemCommand) -> Option<LedState> {
    match command {
        SystemCommand::On => Some(LedState { red: false, green: true }),
        SystemCommand::Off => Some(LedState { red: true, green: false }),
        SystemCommand::Quit => None,
    }
}

/// The indicators to show for `command`, if it changes them.
pub fn leds_for_command(command: SystemCommand) -> (r: Option<LedState>)
    ensures
        r == command_leds(command),
{
    match command {
        SystemCommand::On => Some(LedState { red: false, green: true }),
        SystemCommand::Off => Some(LedState { red: true, green: false }),
        SystemCommand::Quit => None,
    }
}

/// The indicators to show on a fault signal: both lit.
pub fn leds_for_fault() -> (r: LedState)
    ensures
        r == (LedState { red: true, green: true }),
{
    LedState { red: true, green: true }
}

/// One operator button, which raises its command once per press.
#[derive(Debug, Clone, Copy, PartialEq, Eq, Structural)]
pub struct Button {
    pub command: SystemCommand,
    /// Whether a press has been accepted and the button not yet released.
    pub latched: bool,
}

impl Button {
    pub fn new(command: SystemCommand) -> (r: Button)
        ensures
            r == (Button { command, latched: false }),
    {
        Button { command, latched: false }
    }

    /// Takes one sample of the button's level. Gives whether it is a rising
    /// edge, which must be confirmed after the debounce time; a low level
    /// releases the latch.
    pub fn sample(&mut self, high: bool) -> (r: bool)
        ensures
            r == (high && !old(self).latched),
            final(self).command == old(self).command,
            final(self).latched == (old(self).latched && high),
    {
        if high {
            !self.latched
        } else {
            self.latched = false;
            false
        }
    }

    /// Takes the level sampled again after the debounce time that followed
    /// a rising edge: a button still high is pressed, its command raised
    /// and the button latched until released.
    pub fn confirm(&mut self, still_high: bool) -> (r: Option<SystemCommand>)
        ensures
            still_high ==> r == Some(old(self).command) && final(self).latched,
            !still_high ==> r is None && final(self).latched == old(self).latched,
            final(self).command == old(self).command,
    {
        if still_high {
            self.latched = true;
            Some(self.command)
        } else {
            None
        }
    }
}

} // verus!
