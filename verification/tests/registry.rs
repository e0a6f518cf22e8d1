use pretty_core::label::terminal_name;
use pretty_core::registry::{CloseOutcome, Registry, Tab, TabType};

fn three_terminals() -> Registry {
    let mut registry = Registry::new();
    assert_eq!(registry.open_terminal(String::from("pty-a")), Some(0));
    assert_eq!(registry.open_terminal(String::from("pty-b")), Some(1));
    assert_eq!(registry.open_terminal(String::from("pty-c")), Some(2));
    registry
}

fn ids(registry: &Registry) -> Vec<u64> {
    let mut out = Vec::new();
    let mut i = 0;
    while i < registry.len() {
        out.push(registry.tab(i).unwrap().id);
        i += 1;
    }
    out
}

#[test]
fn new_registry_is_empty() {
    let registry = Registry::new();
    assert_eq!(registry.len(), 0);
    assert!(registry.is_empty());
    assert_eq!(registry.current_tab(), 0);
    assert!(registry.focused().is_none());
    assert!(registry.tab(0).is_none());
}

#[test]
fn create_appends_and_keeps_focus() {
    let mut registry = three_terminals();
    assert_eq!(registry.current_tab(), 0);
    let id = registry.create(TabType::Menu, String::from("Settings"), String::new());
    assert_eq!(id, Some(3));
    assert_eq!(registry.len(), 4);
    assert_eq!(registry.current_tab(), 0);
    let tab = registry.tab(3).unwrap();
    assert_eq!(
        *tab,
        Tab { id: 3, name: String::from("Settings"), tab_type: TabType::Menu, pty: String::new() }
    );
}

#[test]
fn terminal_tabs_are_titled_by_position() {
    let registry = three_terminals();
    assert_eq!(registry.tab(0).unwrap().name, "terminal 0");
    assert_eq!(registry.tab(2).unwrap().name, "terminal 2");
    assert_eq!(registry.tab(1).unwrap().pty, "pty-b");
    assert_eq!(registry.tab(1).unwrap().tab_type, TabType::Terminal);
}

#[test]
fn terminal_name_writes_decimal() {
    assert_eq!(terminal_name(0), "terminal 0");
    assert_eq!(terminal_name(9), "terminal 9");
    assert_eq!(terminal_name(10), "terminal 10");
    assert_eq!(terminal_name(12345), "terminal 12345");
    assert_eq!(terminal_name(4294967295), "terminal 4294967295");
}

#[test]
fn tabs_are_listed_in_tab_order() {
    let mut registry = three_terminals();
    registry.close(1);
    let names: Vec<&str> = registry.tabs().iter().map(|tab| tab.name.as_str()).collect();
    assert_eq!(names, vec!["terminal 0", "terminal 2"]);
    assert_eq!(registry.tabs()[1].clone(), *registry.tab(1).unwrap());
}

#[test]
fn tab_new_is_a_terminal() {
    let tab = Tab::new(7, 3, String::from("pty-x"));
    assert_eq!(
        tab,
        Tab {
            id: 7,
            name: String::from("terminal 3"),
            tab_type: TabType::Terminal,
            pty: String::from("pty-x"),
        }
    );
    assert_eq!(tab.duplicate(), tab);
}

#[test]
fn close_behind_focus_keeps_focus() {
    let mut registry = three_terminals();
    assert!(registry.focus(1));
    let outcome = registry.close(2);
    assert!(matches!(outcome, CloseOutcome::Closed(ref tab) if tab.id == 2));
    assert_eq!(registry.len(), 2);
    assert_eq!(registry.current_tab(), 1);
    assert_eq!(ids(&registry), vec![0, 1]);
}

#[test]
fn close_before_focus_moves_focus_down() {
    let mut registry = three_terminals();
    assert!(registry.focus(2));
    let outcome = registry.close(0);
    assert!(matches!(outcome, CloseOutcome::Closed(ref tab) if tab.id == 0));
    assert_eq!(registry.current_tab(), 1);
    assert_eq!(registry.focused().unwrap().id, 2);
    assert_eq!(ids(&registry), vec![1, 2]);
}

#[test]
fn close_at_focus_moves_focus_down() {
    let mut registry = three_terminals();
    assert!(registry.focus(1));
    registry.close(1);
    assert_eq!(registry.current_tab(), 0);
    assert_eq!(ids(&registry), vec![0, 2]);
}

#[test]
fn close_first_with_focus_on_it_clamps_at_zero() {
    let mut registry = three_terminals();
    registry.close(0);
    assert_eq!(registry.current_tab(), 0);
    assert_eq!(registry.len(), 2);
    assert_eq!(registry.focused().unwrap().id, 1);
}

#[test]
fn close_leaves_focus_in_range_for_every_position() {
    let mut focus = 0;
    while focus < 3 {
        let mut index = 0;
        while index < 3 {
            let mut registry = three_terminals();
            assert!(registry.focus(focus));
            registry.close(index);
            assert_eq!(registry.len(), 2);
            assert!(registry.current_tab() < 2);
            index += 1;
        }
        focus += 1;
    }
}

#[test]
fn close_out_of_range_is_ignored() {
    let mut registry = three_terminals();
    assert!(registry.focus(2));
    assert_eq!(registry.close(3), CloseOutcome::Ignored);
    assert_eq!(registry.close(usize::MAX), CloseOutcome::Ignored);
    assert_eq!(registry.len(), 3);
    assert_eq!(registry.current_tab(), 2);
}

#[test]
fn close_last_tab_empties_the_registry() {
    let mut registry = Registry::new();
    registry.open_terminal(String::from("only"));
    let outcome = registry.close_current();
    assert!(matches!(outcome, CloseOutcome::Emptied(ref tab) if tab.pty == "only"));
    assert!(registry.is_empty());
    assert_eq!(registry.current_tab(), 0);
    assert_eq!(registry.close_current(), CloseOutcome::Ignored);
    assert_eq!(registry.close(0), CloseOutcome::Ignored);
}

#[test]
fn close_current_closes_the_focused_tab() {
    let mut registry = three_terminals();
    assert!(registry.focus(1));
    let outcome = registry.close_current();
    assert!(matches!(outcome, CloseOutcome::Closed(ref tab) if tab.id == 1));
    assert_eq!(ids(&registry), vec![0, 2]);
    assert_eq!(registry.current_tab(), 0);
}

#[test]
fn focus_out_of_range_changes_nothing() {
    let mut registry = three_terminals();
    assert!(registry.focus(2));
    assert!(!registry.focus(3));
    assert_eq!(registry.current_tab(), 2);
    let mut empty = Registry::new();
    assert!(!empty.focus(0));
    assert_eq!(empty.current_tab(), 0);
}

#[test]
fn focus_last_goes_to_the_end() {
    let mut registry = three_terminals();
    registry.focus_last();
    assert_eq!(registry.current_tab(), 2);
    let mut empty = Registry::new();
    empty.focus_last();
    assert_eq!(empty.current_tab(), 0);
}

#[test]
fn next_wraps_at_the_end() {
    let mut registry = three_terminals();
    registry.next();
    assert_eq!(registry.current_tab(), 1);
    registry.next();
    assert_eq!(registry.current_tab(), 2);
    registry.next();
    assert_eq!(registry.current_tab(), 0);
}

#[test]
fn previous_wraps_at_the_start() {
    let mut registry = three_terminals();
    registry.previous();
    assert_eq!(registry.current_tab(), 2);
    registry.previous();
    assert_eq!(registry.current_tab(), 1);
    registry.previous();
    assert_eq!(registry.current_tab(), 0);
}

#[test]
fn next_then_previous_returns_from_every_focus() {
    let mut start = 0;
    while start < 3 {
        let mut registry = three_terminals();
        assert!(registry.focus(start));
        registry.next();
        registry.previous();
        assert_eq!(registry.current_tab(), start);
        registry.previous();
        registry.next();
        assert_eq!(registry.current_tab(), start);
        start += 1;
    }
    let mut single = Registry::new();
    single.open_terminal(String::from("one"));
    single.next();
    assert_eq!(single.current_tab(), 0);
    single.previous();
    assert_eq!(single.current_tab(), 0);
}

#[test]
fn next_and_previous_on_empty_registry_do_nothing() {
    let mut registry = Registry::new();
    registry.next();
    assert_eq!(registry.current_tab(), 0);
    registry.previous();
    assert_eq!(registry.current_tab(), 0);
}

#[test]
fn position_of_finds_by_identifier() {
    let mut registry = three_terminals();
    registry.close(0);
    assert_eq!(registry.position_of(0), None);
    assert_eq!(registry.position_of(1), Some(0));
    assert_eq!(registry.position_of(2), Some(1));
    assert_eq!(registry.position_of(3), None);
}

#[test]
fn identifiers_are_never_handed_out_twice() {
    let mut registry = three_terminals();
    registry.close(2);
    registry.close(0);
    assert_eq!(registry.open_terminal(String::from("pty-d")), Some(3));
    assert_eq!(ids(&registry), vec![1, 3]);
    assert_eq!(registry.position_of(0), None);
    assert_eq!(registry.position_of(2), None);
    assert_eq!(registry.tab(1).unwrap().name, "terminal 1");
}

#[test]
fn rename_changes_only_the_title() {
    let mut registry = three_terminals();
    assert!(registry.rename(1, String::from("vim")));
    assert_eq!(
        *registry.tab(1).unwrap(),
        Tab {
            id: 1,
            name: String::from("vim"),
            tab_type: TabType::Terminal,
            pty: String::from("pty-b"),
        }
    );
    assert_eq!(registry.tab(0).unwrap().name, "terminal 0");
    assert_eq!(registry.tab(2).unwrap().name, "terminal 2");
    assert!(!registry.rename(9, String::from("gone")));
    assert_eq!(registry.len(), 3);
}
