//! From what the platform reports to what the game is told to do.

use vstd::prelude::*;

verus! {

/// The keys that the game tells apart; every other key is `Other`.
#[derive(Clone, Copy, Debug, PartialEq, Eq, Structural)]
pub enum Key {
    Escape,
    Up,
    Down,
    Space,
    Other,
}

/// One notification from the platform. `Quit` is the request to close the
/// window, `KeyDown` a key going down; `Other` stands for everything else,
/// a key being released included.
#[derive(Clone, Copy, Debug, PartialEq, Eq, Structural)]
pub enum InputEvent {
    Quit,
    KeyDown(Key),
    Other,
}

/// What one notification asks of the game.
#[derive(Clone, Copy, Debug, PartialEq, Eq, Structural)]
pub enum Command {
    /// Leave the loop.
    Quit,
    /// One step more intent upward.
    IntentUp,
    /// One step more intent downward.
    IntentDown,
    /// Put both bodies back where they started.
    Restart,
    /// Nothing was asked, and therefore no direction key is held: the paddle
    /// loses its intent.
    NoOpWithReset,
}

/// The command that `event` stands for.
pub open spec fn command_for(event: InputEvent) -> Command {
    match event {
        InputEvent::Quit => Command::Quit,
        InputEvent::KeyDown(Key::Escape) => Command::Quit,
        InputEvent::KeyDown(Key::Up) => Command::IntentUp,
        InputEvent::KeyDown(Key::Down) => Command::IntentDown,
        InputEvent::KeyDown(Key::Space) => Command::Restart,
        InputEvent::KeyDown(Key::Other) => Command::NoOpWithReset,
        InputEvent::Other => Command::NoOpWithReset,
    }
}

/// Whether one of `events` asks to quit.
pub open spec fn asks_to_quit(events: Seq<InputEvent>) -> bool {
    exists|i: int| 0 <= i < events.len() && command_for(#[trigger] events[i]) == Command::Quit
}

/// Translates one notification into its command.
pub fn translate(event: InputEvent) -> (command: Command)
    ensures
        command == command_for(event),
{
    match event {
        InputEvent::Quit => Command::Quit,
        InputEvent::KeyDown(Key::Escape) => Command::Quit,
        InputEvent::KeyDown(Key::Up) => Command::IntentUp,
        InputEvent::KeyDown(Key::Down) => Command::IntentDown,
        InputEvent::KeyDown(Key::Space) => Command::Restart,
        InputEvent::KeyDown(Key::Other) => Command::NoOpWithReset,
        InputEvent::Other => Command::NoOpWithReset,
    }
}

} // verus!
