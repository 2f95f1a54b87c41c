//! The window-manager bridge's command dispatch: the commands the bridge
//! understands on its socket, the configuration key each one is looked up
//! under, and the action the configured command string selects.
//!
//! On the wire a command is the JSON encoding of its name — the quoted
//! variant name, for instance `"FocusLeft"` — with any surrounding
//! whitespace already stripped by the host's framing layer.

use vstd::prelude::*;
use crate::config::Config;
use crate::config::lookup_seq;
use crate::str_eq;

verus! {

/// A command the window-manager bridge understands.
#[derive(Clone, Copy, Debug, PartialEq, Eq, Structural)]
pub enum WmCommand {
    FocusLeft,
    FocusRight,
    FocusDown,
    FocusUp,
    FocusNext,
    ShuffleLeft,
    ShuffleRight,
    ShuffleDown,
    ShuffleUp,
    GrowLeft,
    GrowRight,
    GrowDown,
    GrowUp,
    Normalize,
    ToggleSplit,
    SpawnTerminal,
    NextLayout,
    KillWindow,
    ToggleFullscreen,
    ToggleFloating,
    ReloadConfig,
    Shutdown,
    SpawnRofi,
}

/// What the bridge does for a configured command string.
#[derive(Clone, Copy, Debug, PartialEq, Eq, Structural)]
pub enum WmAction {
    /// Focus the window to the left (a stub: only reported, not yet wired up).
    FocusLeftStub,
    /// Focus the window to the right (a stub, as above).
    FocusRightStub,
    /// Spawn the configured terminal emulator.
    SpawnTerminal,
    /// Destroy the currently focused window.
    CloseFocusedWindow,
    /// The command string is not one the bridge knows; it is only reported.
    Unknown,
}

/// The configuration key each command is looked up under.
pub open spec fn spec_command_key(cmd: WmCommand) -> Seq<char> {
    match cmd {
        WmCommand::FocusLeft => "focus_left"@,
        WmCommand::FocusRight => "focus_right"@,
        WmCommand::FocusDown => "focus_down"@,
        WmCommand::FocusUp => "focus_up"@,
        WmCommand::FocusNext => "focus_next"@,
        WmCommand::ShuffleLeft => "shuffle_left"@,
        WmCommand::ShuffleRight => "shuffle_right"@,
        WmCommand::ShuffleDown => "shuffle_down"@,
        WmCommand::ShuffleUp => "shuffle_up"@,
        WmCommand::GrowLeft => "grow_left"@,
        WmCommand::GrowRight => "grow_right"@,
        WmCommand::GrowDown => "grow_down"@,
        WmCommand::GrowUp => "grow_up"@,
        WmCommand::Normalize => "normalize"@,
        WmCommand::ToggleSplit => "toggle_split"@,
        WmCommand::SpawnTerminal => "spawn_terminal"@,
        WmCommand::NextLayout => "next_layout"@,
        WmCommand::KillWindow => "kill_window"@,
        WmCommand::ToggleFullscreen => "toggle_fullscreen"@,
        WmCommand::ToggleFloating => "toggle_floating"@,
        WmCommand::ReloadConfig => "reload_config"@,
        WmCommand::Shutdown => "shutdown"@,
        WmCommand::SpawnRofi => "spawn_rofi"@,
    }
}

/// Returns the configuration key a command is looked up under.
pub fn command_key(cmd: &WmCommand) -> (r: &'static str)
    ensures
        r@ == spec_command_key(*cmd),
{
    match cmd {
        WmCommand::FocusLeft => "focus_left",
        WmCommand::FocusRight => "focus_right",
        WmCommand::FocusDown => "focus_down",
        WmCommand::FocusUp => "focus_up",
        WmCommand::FocusNext => "focus_next",
        WmCommand::ShuffleLeft => "shuffle_left",
        WmCommand::ShuffleRight => "shuffle_right",
        WmCommand::ShuffleDown => "shuffle_down",
        WmCommand::ShuffleUp => "shuffle_up",
        WmCommand::GrowLeft => "grow_left",
        WmCommand::GrowRight => "grow_right",
        WmCommand::GrowDown => "grow_down",
        WmCommand::GrowUp => "grow_up",
        WmCommand::Normalize => "normalize",
        WmCommand::ToggleSplit => "toggle_split",
        WmCommand::SpawnTerminal => "spawn_terminal",
        WmCommand::NextLayout => "next_layout",
        WmCommand::KillWindow => "kill_window",
        WmCommand::ToggleFullscreen => "toggle_fullscreen",
        WmCommand::ToggleFloating => "toggle_floating",
        WmCommand::ReloadConfig => "reload_config",
        WmCommand::Shutdown => "shutdown",
        WmCommand::SpawnRofi => "spawn_rofi",
    }
}

/// The command a stripped wire text denotes: the quoted name of exactly one
/// command, or nothing.
pub open spec fn spec_parse_wm_command(s: Seq<char>) -> Option<WmCommand> {
    if s == "\"FocusLeft\""@ {
        Some(WmCommand::FocusLeft)
    } else if s == "\"FocusRight\""@ {
        Some(WmCommand::FocusRight)
    } else if s == "\"FocusDown\""@ {
        Some(WmCommand::FocusDown)
    } else if s == "\"FocusUp\""@ {
        Some(WmCommand::FocusUp)
    } else if s == "\"FocusNext\""@ {
        Some(WmCommand::FocusNext)
    } else if s == "\"ShuffleLeft\""@ {
        Some(WmCommand::ShuffleLeft)
    } else if s == "\"ShuffleRight\""@ {
        Some(WmCommand::ShuffleRight)
    } else if s == "\"ShuffleDown\""@ {
        Some(WmCommand::ShuffleDown)
    } else if s == "\"ShuffleUp\""@ {
        Some(WmCommand::ShuffleUp)
    } else if s == "\"GrowLeft\""@ {
        Some(WmCommand::GrowLeft)
    } else if s == "\"GrowRight\""@ {
        Some(WmCommand::GrowRight)
    } else if s == "\"GrowDown\""@ {
        Some(WmCommand::GrowDown)
    } else if s == "\"GrowUp\""@ {
        Some(WmCommand::GrowUp)
    } else if s == "\"Normalize\""@ {
        Some(WmCommand::Normalize)
    } else if s == "\"ToggleSplit\""@ {
        Some(WmCommand::ToggleSplit)
    } else if s == "\"SpawnTerminal\""@ {
        Some(WmCommand::SpawnTerminal)
    } else if s == "\"NextLayout\""@ {
        Some(WmCommand::NextLayout)
    } else if s == "\"KillWindow\""@ {
        Some(WmCommand::KillWindow)
    } else if s == "\"ToggleFullscreen\""@ {
        Some(WmCommand::ToggleFullscreen)
    } else if s == "\"ToggleFloating\""@ {
        Some(WmCommand::ToggleFloating)
    } else if s == "\"ReloadConfig\""@ {
        Some(WmCommand::ReloadConfig)
    } else if s == "\"Shutdown\""@ {
        Some(WmCommand::Shutdown)
    } else if s == "\"SpawnRofi\""@ {
        Some(WmCommand::SpawnRofi)
    } else {
        None
    }
}

/// Parses a stripped wire text into the command it denotes, if any.
pub fn parse_wm_command(text: &str) -> (r: Option<WmCommand>)
    ensures
        r == spec_parse_wm_command(text@),
{
    if str_eq(text, "\"FocusLeft\"") {
        Some(WmCommand::FocusLeft)
    } else if str_eq(text, "\"FocusRight\"") {
        Some(WmCommand::FocusRight)
    } else if str_eq(text, "\"FocusDown\"") {
        Some(WmCommand::FocusDown)
    } else if str_eq(text, "\"FocusUp\"") {
        Some(WmCommand::FocusUp)
    } else if str_eq(text, "\"FocusNext\"") {
        Some(WmCommand::FocusNext)
    } else if str_eq(text, "\"ShuffleLeft\"") {
        Some(WmCommand::ShuffleLeft)
    } else if str_eq(text, "\"ShuffleRight\"") {
        Some(WmCommand::ShuffleRight)
    } else if str_eq(text, "\"ShuffleDown\"") {
        Some(WmCommand::ShuffleDown)
    } else if str_eq(text, "\"ShuffleUp\"") {
        Some(WmCommand::ShuffleUp)
    } else if str_eq(text, "\"GrowLeft\"") {
        Some(WmCommand::GrowLeft)
    } else if str_eq(text, "\"GrowRight\"") {
        Some(WmCommand::GrowRight)
    } else if str_eq(text, "\"GrowDown\"") {
        Some(WmCommand::GrowDown)
    } else if str_eq(text, "\"GrowUp\"") {
        Some(WmCommand::GrowUp)
    } else if str_eq(text, "\"Normalize\"") {
        Some(WmCommand::Normalize)
    } else if str_eq(text, "\"ToggleSplit\"") {
        Some(WmCommand::ToggleSplit)
    } else if str_eq(text, "\"SpawnTerminal\"") {
        Some(WmCommand::SpawnTerminal)
    } else if str_eq(text, "\"NextLayout\"") {
        Some(WmCommand::NextLayout)
    } else if str_eq(text, "\"KillWindow\"") {
        Some(WmCommand::KillWindow)
    } else if str_eq(text, "\"ToggleFullscreen\"") {
        Some(WmCommand::ToggleFullscreen)
    } else if str_eq(text, "\"ToggleFloating\"") {
        Some(WmCommand::ToggleFloating)
    } else if str_eq(text, "\"ReloadConfig\"") {
        Some(WmCommand::ReloadConfig)
    } else if str_eq(text, "\"Shutdown\"") {
        Some(WmCommand::Shutdown)
    } else if str_eq(text, "\"SpawnRofi\"") {
        Some(WmCommand::SpawnRofi)
    } else {
        None
    }
}

/// The action a configured command string selects.
pub open spec fn spec_classify_command(s: Seq<char>) -> WmAction {
    if s == "move_focus -x -1"@ {
        WmAction::FocusLeftStub
    } else if s == "move_focus -x 1"@ {
        WmAction::FocusRightStub
    } else if s == "spawn alacritty"@ {
        WmAction::SpawnTerminal
    } else if s == "close_window"@ {
        WmAction::CloseFocusedWindow
    } else {
        WmAction::Unknown
    }
}

/// Classifies a configured command string into the action it selects.
pub fn classify_command(command: &str) -> (r: WmAction)
    ensures
        r == spec_classify_command(command@),
{
    if str_eq(command, "move_focus -x -1") {
        WmAction::FocusLeftStub
    } else if str_eq(command, "move_focus -x 1") {
        WmAction::FocusRightStub
    } else if str_eq(command, "spawn alacritty") {
        WmAction::SpawnTerminal
    } else if str_eq(command, "close_window") {
        WmAction::CloseFocusedWindow
    } else {
        WmAction::Unknown
    }
}

/// Dispatches one command: looks up the command string configured under the
/// command's key, and classifies it into the action to perform. Returns
/// nothing when the configuration has no entry for the key.
pub fn handle_command<'a>(config: &'a Config, cmd: &WmCommand) -> (r: Option<(WmAction, &'a String)>)
    ensures
        match r {
            Some(pair) => {
                &&& lookup_seq(config.commands@, spec_command_key(*cmd)) == Some(*pair.1)
                &&& pair.0 == spec_classify_command(pair.1@)
            },
            None => lookup_seq(config.commands@, spec_command_key(*cmd)) is None,
        },
{
    let key = command_key(cmd);
    match config.command_for(key) {
        Some(command) => {
            let action = classify_command(command.as_str());
            Some((action, command))
        },
        None => None,
    }
}

} // verus!
