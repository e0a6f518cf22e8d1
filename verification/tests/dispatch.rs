use pretty_core::action::Action;
use pretty_core::dispatch::{
    attach_terminal, confirm_palette, handle_action, handle_key, spawn_new, AppState, Effect,
    SpawnError,
};
use pretty_core::palette::PaletteEntry;
use pretty_core::registry::TabType;
use pretty_core::sync::{Delivery, Synchronizer};

fn catalog() -> Vec<PaletteEntry> {
    vec![
        PaletteEntry { label: String::from("New Tab"), action: Action::NewTab },
        PaletteEntry { label: String::from("Close Tab"), action: Action::CloseTab },
        PaletteEntry { label: String::from("Next Tab"), action: Action::NextTab },
        PaletteEntry { label: String::from("Open Settings"), action: Action::OpenSettings },
        PaletteEntry {
            label: String::from("Toggle Command Palette"),
            action: Action::ToggleCommandPalette,
        },
    ]
}

fn state_with_terminals(count: usize) -> AppState {
    let mut state = AppState::new(String::new(), catalog());
    let mut i = 0;
    while i < count {
        let pty = format!("pty-{}", i);
        assert_eq!(attach_terminal(&mut state, Ok(pty)), Ok(i as u64));
        i += 1;
    }
    state
}

#[test]
fn new_state_has_no_tab_and_a_closed_palette() {
    let state = AppState::new(String::from("fish"), catalog());
    assert!(state.registry().is_empty());
    assert_eq!(state.registry().current_tab(), 0);
    assert!(!state.palette_open());
    assert_eq!(state.palette().len(), 5);
    assert_eq!(*state.palette().matches(), vec![0, 1, 2, 3, 4]);
}

#[test]
fn spawn_new_hands_on_the_empty_command_only() {
    assert_eq!(spawn_new(""), Some(String::new()));
    assert_eq!(spawn_new("fish"), None);
    assert_eq!(spawn_new(" "), None);
}

#[test]
fn new_tab_asks_for_a_spawn_and_changes_nothing() {
    let mut state = state_with_terminals(1);
    let effect = handle_action(&mut state, Action::NewTab);
    assert_eq!(effect, Effect::Spawn { command: Some(String::new()) });
    assert_eq!(state.registry().len(), 1);
    let mut configured = AppState::new(String::from("fish"), catalog());
    assert_eq!(handle_action(&mut configured, Action::NewTab), Effect::Spawn { command: None });
}

#[test]
fn attached_terminal_gets_the_focus() {
    let mut state = state_with_terminals(2);
    assert!(state.focus_tab(0));
    assert_eq!(attach_terminal(&mut state, Ok(String::from("pty-new"))), Ok(2));
    assert_eq!(state.registry().len(), 3);
    assert_eq!(state.registry().current_tab(), 2);
    let tab = state.registry().focused().unwrap();
    assert_eq!(tab.id, 2);
    assert_eq!(tab.name, "terminal 2");
    assert_eq!(tab.tab_type, TabType::Terminal);
    assert_eq!(tab.pty, "pty-new");
}

#[test]
fn failed_spawn_is_reported_and_changes_nothing() {
    let mut state = state_with_terminals(2);
    assert!(state.focus_tab(1));
    let outcome = attach_terminal(&mut state, Err(String::from("no shell")));
    assert_eq!(outcome, Err(SpawnError::Failed(String::from("no shell"))));
    assert_eq!(state.registry().len(), 2);
    assert_eq!(state.registry().current_tab(), 1);
}

#[test]
fn write_goes_to_the_focused_terminal() {
    let mut state = state_with_terminals(3);
    assert!(state.focus_tab(1));
    let effect = handle_action(&mut state, Action::Write(String::from("ls\n")));
    assert_eq!(effect, Effect::Write { pty: String::from("pty-1"), text: String::from("ls\n") });
    assert_eq!(state.registry().len(), 3);
    assert_eq!(state.registry().current_tab(), 1);
}

#[test]
fn write_on_a_pane_is_dropped() {
    let mut state = state_with_terminals(1);
    assert_eq!(handle_action(&mut state, Action::OpenSettings), Effect::Nothing);
    let effect = handle_action(&mut state, Action::Write(String::from("ls\n")));
    assert_eq!(effect, Effect::Nothing);
    assert_eq!(handle_action(&mut state, Action::OpenPluginMenu), Effect::Nothing);
    let effect = handle_action(&mut state, Action::Write(String::from("ls\n")));
    assert_eq!(effect, Effect::Nothing);
}

#[test]
fn write_without_tabs_is_dropped() {
    let mut state = state_with_terminals(0);
    let effect = handle_action(&mut state, Action::Write(String::from("ls\n")));
    assert_eq!(effect, Effect::Nothing);
    assert!(state.registry().is_empty());
}

#[test]
fn open_settings_appends_a_focused_pane() {
    let mut state = state_with_terminals(2);
    assert!(state.focus_tab(0));
    assert_eq!(handle_action(&mut state, Action::OpenSettings), Effect::Nothing);
    assert_eq!(state.registry().len(), 3);
    assert_eq!(state.registry().current_tab(), 2);
    let tab = state.registry().focused().unwrap();
    assert_eq!(tab.name, "Settings");
    assert_eq!(tab.tab_type, TabType::Menu);
    assert_eq!(tab.pty, "");
    assert_eq!(tab.id, 2);
}

#[test]
fn open_plugin_menu_appends_a_focused_pane() {
    let mut state = state_with_terminals(1);
    assert_eq!(handle_action(&mut state, Action::OpenPluginMenu), Effect::Nothing);
    assert_eq!(state.registry().current_tab(), 1);
    let tab = state.registry().focused().unwrap();
    assert_eq!(tab.name, "Plugins");
    assert_eq!(tab.tab_type, TabType::PluginMenu);
    assert_eq!(tab.pty, "");
}

#[test]
fn close_tab_among_several_asks_for_nothing() {
    let mut state = state_with_terminals(3);
    assert!(state.focus_tab(2));
    assert_eq!(handle_action(&mut state, Action::CloseTab), Effect::Nothing);
    assert_eq!(state.registry().len(), 2);
    assert_eq!(state.registry().current_tab(), 1);
    assert_eq!(state.registry().focused().unwrap().id, 1);
}

#[test]
fn close_tab_at_clamps_the_focus() {
    let mut state = state_with_terminals(3);
    assert!(state.focus_tab(0));
    assert_eq!(handle_action(&mut state, Action::CloseTabAt(0)), Effect::Nothing);
    assert_eq!(state.registry().len(), 2);
    assert_eq!(state.registry().current_tab(), 0);
    assert_eq!(handle_action(&mut state, Action::CloseTabAt(1)), Effect::Nothing);
    assert_eq!(state.registry().len(), 1);
    assert_eq!(state.registry().current_tab(), 0);
    assert_eq!(state.registry().focused().unwrap().id, 1);
}

#[test]
fn close_tab_at_out_of_range_is_a_silent_no_op() {
    let mut state = state_with_terminals(2);
    assert!(state.focus_tab(1));
    assert_eq!(handle_action(&mut state, Action::CloseTabAt(2)), Effect::Nothing);
    assert_eq!(handle_action(&mut state, Action::CloseTabAt(usize::MAX)), Effect::Nothing);
    assert_eq!(state.registry().len(), 2);
    assert_eq!(state.registry().current_tab(), 1);
    let mut single = state_with_terminals(1);
    assert_eq!(handle_action(&mut single, Action::CloseTabAt(1)), Effect::Nothing);
    assert_eq!(single.registry().len(), 1);
}

#[test]
fn closing_the_last_tab_asks_for_shutdown_once() {
    let mut state = state_with_terminals(1);
    assert_eq!(handle_action(&mut state, Action::CloseTab), Effect::Shutdown);
    assert!(state.registry().is_empty());
    assert_eq!(handle_action(&mut state, Action::CloseTab), Effect::Nothing);
    assert_eq!(handle_action(&mut state, Action::CloseTabAt(0)), Effect::Nothing);
    assert!(state.registry().is_empty());
    let mut other = state_with_terminals(1);
    assert_eq!(handle_action(&mut other, Action::CloseTabAt(0)), Effect::Shutdown);
    assert_eq!(handle_action(&mut other, Action::CloseTabAt(0)), Effect::Nothing);
}

#[test]
fn closing_all_tabs_asks_for_shutdown_at_the_last() {
    let mut state = state_with_terminals(3);
    let mut effects = Vec::new();
    let mut i = 0;
    while i < 5 {
        effects.push(handle_action(&mut state, Action::CloseTab));
        i += 1;
    }
    assert_eq!(
        effects,
        vec![Effect::Nothing, Effect::Nothing, Effect::Shutdown, Effect::Nothing, Effect::Nothing]
    );
}

#[test]
fn quit_asks_for_shutdown() {
    let mut state = state_with_terminals(2);
    assert_eq!(handle_action(&mut state, Action::Quit), Effect::Shutdown);
    assert_eq!(state.registry().len(), 2);
}

#[test]
fn toggle_command_palette_flips_the_flag() {
    let mut state = state_with_terminals(1);
    assert_eq!(handle_action(&mut state, Action::ToggleCommandPalette), Effect::Nothing);
    assert!(state.palette_open());
    assert_eq!(handle_action(&mut state, Action::ToggleCommandPalette), Effect::Nothing);
    assert!(!state.palette_open());
}

#[test]
fn next_and_previous_tab_wrap() {
    let mut state = state_with_terminals(3);
    assert_eq!(state.registry().current_tab(), 2);
    assert_eq!(handle_action(&mut state, Action::NextTab), Effect::Nothing);
    assert_eq!(state.registry().current_tab(), 0);
    assert_eq!(handle_action(&mut state, Action::PreviousTab), Effect::Nothing);
    assert_eq!(state.registry().current_tab(), 2);
    assert_eq!(handle_action(&mut state, Action::PreviousTab), Effect::Nothing);
    assert_eq!(state.registry().current_tab(), 1);
    assert_eq!(handle_action(&mut state, Action::NextTab), Effect::Nothing);
    assert_eq!(state.registry().current_tab(), 2);
}

#[test]
fn open_dev_tools_is_handed_to_the_caller() {
    let mut state = state_with_terminals(1);
    assert_eq!(handle_action(&mut state, Action::OpenDevTools), Effect::DevTools);
}

#[test]
fn no_action_does_nothing() {
    let mut state = state_with_terminals(2);
    assert_eq!(handle_action(&mut state, Action::NoAction), Effect::Nothing);
    assert_eq!(state.registry().len(), 2);
    assert_eq!(state.registry().current_tab(), 1);
}

#[test]
fn unwired_actions_are_reported_and_change_nothing() {
    let unwired = vec![
        Action::PasteText,
        Action::CopyText,
        Action::ClearBuffer,
        Action::CloseOtherTabs,
        Action::ScrollUp,
        Action::ScrollUpPage,
        Action::ScrollDown,
        Action::ScrollDownPage,
        Action::ScrollToBottom,
        Action::ScrollToTop,
    ];
    let mut state = state_with_terminals(2);
    for action in unwired {
        assert_eq!(handle_action(&mut state, action), Effect::Unimplemented);
        assert_eq!(state.registry().len(), 2);
        assert_eq!(state.registry().current_tab(), 1);
        assert!(!state.palette_open());
    }
}

#[test]
fn keys_belong_to_the_palette_while_it_is_shown() {
    let mut state = state_with_terminals(2);
    let effect = handle_key(&mut state, Action::Write(String::from("a")));
    assert_eq!(effect, Effect::Write { pty: String::from("pty-1"), text: String::from("a") });
    handle_action(&mut state, Action::ToggleCommandPalette);
    assert_eq!(handle_key(&mut state, Action::Write(String::from("a"))), Effect::Nothing);
    assert_eq!(handle_key(&mut state, Action::CloseTab), Effect::Nothing);
    assert_eq!(handle_key(&mut state, Action::Quit), Effect::Nothing);
    assert_eq!(state.registry().len(), 2);
    assert!(state.palette_open());
}

#[test]
fn confirm_dispatches_the_selected_action_and_closes_the_palette() {
    let mut state = state_with_terminals(3);
    assert!(state.focus_tab(0));
    handle_action(&mut state, Action::ToggleCommandPalette);
    state.set_palette_query(String::from("n"));
    assert_eq!(*state.palette().matches(), vec![0, 2]);
    state.palette_down();
    assert_eq!(state.palette().selected(), 1);
    assert_eq!(confirm_palette(&mut state), Effect::Nothing);
    assert_eq!(state.registry().current_tab(), 1);
    assert!(!state.palette_open());
}

#[test]
fn confirm_hands_back_the_effect_of_the_action() {
    let mut state = state_with_terminals(1);
    handle_action(&mut state, Action::ToggleCommandPalette);
    assert_eq!(confirm_palette(&mut state), Effect::Spawn { command: Some(String::new()) });
    assert!(!state.palette_open());
    handle_action(&mut state, Action::ToggleCommandPalette);
    state.set_palette_query(String::from("close"));
    assert_eq!(confirm_palette(&mut state), Effect::Shutdown);
    assert!(state.registry().is_empty());
}

#[test]
fn confirm_of_the_toggle_leaves_the_palette_closed() {
    let mut state = state_with_terminals(1);
    handle_action(&mut state, Action::ToggleCommandPalette);
    state.set_palette_query(String::from("toggle"));
    assert_eq!(confirm_palette(&mut state), Effect::Nothing);
    assert!(!state.palette_open());
}

#[test]
fn confirm_without_matches_does_nothing() {
    let mut state = state_with_terminals(2);
    handle_action(&mut state, Action::ToggleCommandPalette);
    state.set_palette_query(String::from("zzz"));
    assert_eq!(confirm_palette(&mut state), Effect::Nothing);
    assert!(state.palette_open());
    assert_eq!(state.registry().len(), 2);
}

#[test]
fn palette_cursor_wraps_through_the_state() {
    let mut state = state_with_terminals(1);
    state.palette_up();
    assert_eq!(state.palette().selected(), 4);
    state.palette_down();
    assert_eq!(state.palette().selected(), 0);
}

#[test]
fn focus_tab_and_set_title_reach_the_registry() {
    let mut state = state_with_terminals(2);
    assert!(state.focus_tab(0));
    assert!(!state.focus_tab(2));
    assert_eq!(state.registry().current_tab(), 0);
    assert!(state.set_title(1, String::from("htop")));
    assert!(!state.set_title(5, String::from("gone")));
    assert_eq!(state.registry().tab(1).unwrap().name, "htop");
    assert_eq!(state.registry().tab(0).unwrap().name, "terminal 0");
}

#[test]
fn session_output_reaches_its_terminal_in_order() {
    let mut state = state_with_terminals(0);
    assert_eq!(attach_terminal(&mut state, Ok(String::from("pty-other"))), Ok(0));
    let effect = handle_action(&mut state, Action::NewTab);
    assert_eq!(effect, Effect::Spawn { command: Some(String::new()) });
    let session = attach_terminal(&mut state, Ok(String::from("pty-shell"))).unwrap();
    let effect = handle_action(&mut state, Action::Write(String::from("ls\n")));
    assert_eq!(
        effect,
        Effect::Write { pty: String::from("pty-shell"), text: String::from("ls\n") }
    );
    let mut sync = Synchronizer::new();
    let mut screens: Vec<Vec<&str>> = vec![Vec::new(), Vec::new()];
    let arrivals = [(0, "noise"), (session, "ls"), (0, "more noise"), (session, "a.txt b.txt")];
    for (from, event) in arrivals {
        match sync.on_output(state.registry(), from) {
            Delivery::Apply { index } => {
                screens[index].push(event);
                assert_eq!(sync.on_render(state.registry()), Some(from));
            }
            _ => panic!("both sessions are open"),
        }
    }
    assert_eq!(screens[1], vec!["ls", "a.txt b.txt"]);
    assert_eq!(screens[0], vec!["noise", "more noise"]);
}
