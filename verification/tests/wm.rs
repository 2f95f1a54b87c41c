use rust_vrender::commands::{parse_renderer_command, RendererCommand};
use rust_vrender::config::Config;
use rust_vrender::wm::{
    classify_command, command_key, handle_command, parse_wm_command, WmAction, WmCommand,
};

fn sample_config() -> Config {
    Config {
        commands: vec![
            ("focus_left".to_string(), "move_focus -x -1".to_string()),
            ("focus_right".to_string(), "move_focus -x 1".to_string()),
            ("spawn_terminal".to_string(), "spawn alacritty".to_string()),
            ("kill_window".to_string(), "close_window".to_string()),
            ("shutdown".to_string(), "qtile shutdown".to_string()),
        ],
    }
}

#[test]
fn spawn_window_line_parses() {
    assert_eq!(
        parse_renderer_command("\"SpawnWindow\""),
        Some(RendererCommand::SpawnWindow)
    );
}

#[test]
fn other_lines_are_rejected() {
    assert_eq!(parse_renderer_command("SpawnWindow"), None);
    assert_eq!(parse_renderer_command("\"spawn_window\""), None);
    assert_eq!(parse_renderer_command(""), None);
    assert_eq!(parse_renderer_command("{\"SpawnWindow\":null}"), None);
}

#[test]
fn every_wm_command_parses_from_its_quoted_name() {
    let cases = [
        ("\"FocusLeft\"", WmCommand::FocusLeft),
        ("\"FocusRight\"", WmCommand::FocusRight),
        ("\"FocusDown\"", WmCommand::FocusDown),
        ("\"FocusUp\"", WmCommand::FocusUp),
        ("\"FocusNext\"", WmCommand::FocusNext),
        ("\"ShuffleLeft\"", WmCommand::ShuffleLeft),
        ("\"ShuffleRight\"", WmCommand::ShuffleRight),
        ("\"ShuffleDown\"", WmCommand::ShuffleDown),
        ("\"ShuffleUp\"", WmCommand::ShuffleUp),
        ("\"GrowLeft\"", WmCommand::GrowLeft),
        ("\"GrowRight\"", WmCommand::GrowRight),
        ("\"GrowDown\"", WmCommand::GrowDown),
        ("\"GrowUp\"", WmCommand::GrowUp),
        ("\"Normalize\"", WmCommand::Normalize),
        ("\"ToggleSplit\"", WmCommand::ToggleSplit),
        ("\"SpawnTerminal\"", WmCommand::SpawnTerminal),
        ("\"NextLayout\"", WmCommand::NextLayout),
        ("\"KillWindow\"", WmCommand::KillWindow),
        ("\"ToggleFullscreen\"", WmCommand::ToggleFullscreen),
        ("\"ToggleFloating\"", WmCommand::ToggleFloating),
        ("\"ReloadConfig\"", WmCommand::ReloadConfig),
        ("\"Shutdown\"", WmCommand::Shutdown),
        ("\"SpawnRofi\"", WmCommand::SpawnRofi),
    ];
    for (text, expected) in cases {
        assert_eq!(parse_wm_command(text), Some(expected));
    }
    assert_eq!(parse_wm_command("\"Unknown\""), None);
    assert_eq!(parse_wm_command("FocusLeft"), None);
}

#[test]
fn command_keys_match_configuration_names() {
    assert_eq!(command_key(&WmCommand::FocusLeft), "focus_left");
    assert_eq!(command_key(&WmCommand::ToggleFullscreen), "toggle_fullscreen");
    assert_eq!(command_key(&WmCommand::SpawnRofi), "spawn_rofi");
}

#[test]
fn configured_commands_resolve_to_their_strings() {
    let config = sample_config();
    let found = config.command_for("focus_left");
    assert_eq!(found, Some(&"move_focus -x -1".to_string()));
    assert_eq!(config.command_for("focus_up"), None);
}

#[test]
fn classification_matches_known_command_strings() {
    assert_eq!(classify_command("move_focus -x -1"), WmAction::FocusLeftStub);
    assert_eq!(classify_command("move_focus -x 1"), WmAction::FocusRightStub);
    assert_eq!(classify_command("spawn alacritty"), WmAction::SpawnTerminal);
    assert_eq!(classify_command("close_window"), WmAction::CloseFocusedWindow);
    assert_eq!(classify_command("qtile shutdown"), WmAction::Unknown);
}

#[test]
fn dispatch_runs_lookup_then_classification() {
    let config = sample_config();
    let focus = handle_command(&config, &WmCommand::FocusLeft);
    assert_eq!(
        focus,
        Some((WmAction::FocusLeftStub, &"move_focus -x -1".to_string()))
    );
    let terminal = handle_command(&config, &WmCommand::SpawnTerminal);
    assert_eq!(
        terminal,
        Some((WmAction::SpawnTerminal, &"spawn alacritty".to_string()))
    );
    let kill = handle_command(&config, &WmCommand::KillWindow);
    assert_eq!(
        kill,
        Some((WmAction::CloseFocusedWindow, &"close_window".to_string()))
    );
    let unknown_string = handle_command(&config, &WmCommand::Shutdown);
    assert_eq!(
        unknown_string,
        Some((WmAction::Unknown, &"qtile shutdown".to_string()))
    );
    assert_eq!(handle_command(&config, &WmCommand::FocusUp), None);
}
