use vizier_lib::analyzer::{AnalyzedItem, InstalledCrate, ItemKind, Visibility};
use vizier_lib::app::keys::{Key, KeyAction, KeyEffect, Link, Modifiers, ScrollMove};
use vizier_lib::app::crates::QualifiedSearch;
use vizier_lib::app::App;
use vizier_lib::ui::app::{Focus, Tab};

const NONE: Modifiers = Modifiers { shift: false, others: false };
const SHIFT: Modifiers = Modifiers { shift: true, others: false };

fn item(kind: ItemKind, name: &str, modules: &[&str]) -> AnalyzedItem {
    AnalyzedItem {
        kind,
        name: name.to_string(),
        qualified_name: {
            let mut q: Vec<String> = modules.iter().map(|m| m.to_string()).collect();
            q.push(name.to_string());
            q.join("::")
        },
        modules: modules.iter().map(|m| m.to_string()).collect(),
        visibility: Some(Visibility::Public),
        documentation: None,
        definition: format!("pub {} {}", kind_word(kind), name),
        source_file: Some("src/lib.rs".to_string()),
        source_line: Some(3),
    }
}

fn kind_word(kind: ItemKind) -> &'static str {
    match kind {
        ItemKind::Function => "fn",
        ItemKind::Struct => "struct",
        _ => "mod",
    }
}

fn installed(name: &str) -> InstalledCrate {
    InstalledCrate {
        name: name.to_string(),
        version: "1.0.0".to_string(),
        description: None,
        license: None,
        authors: Vec::new(),
        repository: None,
        documentation: None,
        keywords: Vec::new(),
        categories: Vec::new(),
        path: format!("/registry/{}-1.0.0", name),
    }
}

fn app_with_items() -> App {
    let mut app = App::new();
    app.items = vec![
        item(ItemKind::Struct, "Foo", &["demo"]),
        item(ItemKind::Function, "bar", &["demo"]),
        item(ItemKind::Struct, "Baz", &["demo"]),
    ];
    app.filter_items();
    app
}

fn press(app: &mut App, key: Key, mods: Modifiers) -> KeyAction {
    let mut scroll = 0usize;
    app.handle_key_event(key, mods, &mut scroll)
}

#[test]
fn esc_on_an_empty_app_quits() {
    let mut app = App::new();
    assert!(matches!(press(&mut app, Key::Esc, NONE), KeyAction::Handled));
    assert!(app.should_quit);
}

#[test]
fn typing_in_the_search_bar() {
    let mut app = app_with_items();
    press(&mut app, Key::Char('b'), NONE);
    press(&mut app, Key::Char('a'), NONE);
    assert_eq!(app.search_input, "ba");
    assert!(app.show_completion);
    // "2" is typed, not a tab switch, while the search bar has focus.
    press(&mut app, Key::Char('2'), NONE);
    assert_eq!(app.search_input, "ba2");
    assert_eq!(app.current_tab, Tab::Types);
    press(&mut app, Key::Backspace, NONE);
    assert_eq!(app.search_input, "ba");
    press(&mut app, Key::Esc, NONE);
    assert!(!app.show_completion);
    press(&mut app, Key::Esc, NONE);
    assert_eq!(app.search_input, "");
    assert!(!app.should_quit);
}

#[test]
fn number_keys_switch_tabs_from_the_list() {
    let mut app = app_with_items();
    app.focus = Focus::List;
    match press(&mut app, Key::Char('2'), NONE) {
        KeyAction::SwitchedTab { scan } => assert!(!scan),
        _ => panic!("expected a tab switch"),
    }
    assert_eq!(app.current_tab, Tab::Functions);
    assert_eq!(app.filtered_items, vec![1]);
    match press(&mut app, Key::Char('4'), NONE) {
        KeyAction::SwitchedTab { scan } => assert!(scan),
        _ => panic!("expected a tab switch"),
    }
    assert_eq!(app.current_tab, Tab::Crates);
}

#[test]
fn shortcuts_need_the_list_or_inspector_focused() {
    let mut app = app_with_items();
    press(&mut app, Key::Char('q'), NONE);
    assert!(!app.should_quit);
    assert_eq!(app.search_input, "q");
    app.search_input.clear();
    app.focus = Focus::List;
    match press(&mut app, Key::Char('g'), NONE) {
        KeyAction::OpenUrl(u) => assert_eq!(u, "https://github.com/yashksaini-coder/vizier"),
        _ => panic!("expected a URL"),
    }
    press(&mut app, Key::Char('q'), NONE);
    assert!(app.should_quit);
}

#[test]
fn help_closes_on_any_key() {
    let mut app = app_with_items();
    app.focus = Focus::List;
    press(&mut app, Key::Char('?'), NONE);
    assert!(app.show_help);
    press(&mut app, Key::Char('x'), NONE);
    assert!(!app.show_help);
}

#[test]
fn list_navigation_wraps_and_pages() {
    let mut app = app_with_items();
    app.focus = Focus::List;
    assert_eq!(app.filtered_items, vec![0, 2]);
    app.list_state.select(Some(0));
    press(&mut app, Key::Char('j'), NONE);
    assert_eq!(app.list_state.selected(), Some(1));
    press(&mut app, Key::Down, NONE);
    assert_eq!(app.list_state.selected(), Some(0));
    press(&mut app, Key::Up, NONE);
    assert_eq!(app.list_state.selected(), Some(1));
    // Ten steps down from row 1 of 2 rows lands on row 1 again.
    press(&mut app, Key::PageDown, NONE);
    assert_eq!(app.list_state.selected(), Some(1));
    press(&mut app, Key::Char('G'), NONE);
    assert_eq!(app.list_state.selected(), Some(1));
    press(&mut app, Key::Home, NONE);
    assert_eq!(app.list_state.selected(), Some(0));
}

#[test]
fn inspector_scrolls_and_saturates() {
    let mut app = app_with_items();
    app.focus = Focus::Inspector;
    let mut scroll = 0usize;
    app.handle_key_event(Key::Char('j'), NONE, &mut scroll);
    app.handle_key_event(Key::PageDown, NONE, &mut scroll);
    assert_eq!(scroll, 11);
    app.handle_key_event(Key::PageUp, NONE, &mut scroll);
    app.handle_key_event(Key::PageUp, NONE, &mut scroll);
    assert_eq!(scroll, 0);
    app.handle_key_event(Key::Left, NONE, &mut scroll);
    assert_eq!(app.focus, Focus::List);
}

#[test]
fn copilot_chat_opens_only_with_a_selected_item() {
    let mut app = app_with_items();
    app.focus = Focus::List;
    app.list_state.select(None);
    press(&mut app, Key::Char('C'), SHIFT);
    assert!(!app.copilot_chat_open);
    assert_eq!(app.status_message, "Select an item in the list to ask Copilot about it");
    app.list_state.select(Some(0));
    press(&mut app, Key::Char('C'), SHIFT);
    assert!(app.copilot_chat_open);
    assert_eq!(app.focus, Focus::CopilotChat);
    press(&mut app, Key::Char('h'), NONE);
    press(&mut app, Key::Char('i'), NONE);
    assert_eq!(app.copilot_chat_input, "hi");
    match press(&mut app, Key::Enter, NONE) {
        KeyAction::AskCopilot(prompt) => {
            assert!(prompt.starts_with("I'm inspecting this Rust item"));
            assert!(prompt.contains("**Item:** struct demo::Foo"));
            assert!(prompt.contains("**Location:** src/lib.rs:3"));
            assert!(prompt.ends_with("User: hi\n\nRespond to the user's latest message above."));
        }
        _ => panic!("expected a prompt"),
    }
    assert!(app.copilot_chat_loading);
    assert_eq!(app.copilot_chat_input, "");
    app.receive_copilot_response("Hello".to_string());
    assert!(!app.copilot_chat_loading);
    assert_eq!(app.copilot_chat_messages.last().unwrap().1, "Hello");
    press(&mut app, Key::Esc, NONE);
    assert!(!app.copilot_chat_open);
    assert_eq!(app.focus, Focus::Inspector);
}

#[test]
fn chat_panel_keys_scroll_while_open() {
    let mut app = app_with_items();
    app.copilot_chat_open = true;
    app.focus = Focus::List;
    press(&mut app, Key::End, NONE);
    assert_eq!(app.copilot_chat_scroll, 9999);
    press(&mut app, Key::Home, NONE);
    assert_eq!(app.copilot_chat_scroll, 0);
}

#[test]
fn key_effects_follow_the_decision_table() {
    let mut app = app_with_items();
    assert_eq!(app.key_effect(Key::Tab, NONE), KeyEffect::NextFocus);
    app.show_completion = true;
    assert_eq!(app.key_effect(Key::Tab, NONE), KeyEffect::CompleteAndNextFocus);
    app.focus = Focus::List;
    assert_eq!(app.key_effect(Key::Char('s'), NONE), KeyEffect::OpenLink(Link::Sponsors));
    app.focus = Focus::Inspector;
    assert_eq!(app.key_effect(Key::Up, NONE), KeyEffect::InspectorScroll(ScrollMove::Up(1)));
    app.show_settings = true;
    assert_eq!(app.key_effect(Key::Char('t'), NONE), KeyEffect::CycleTheme);
    assert_eq!(app.key_effect(Key::Char('x'), NONE), KeyEffect::Nothing);
}

#[test]
fn qualified_path_search_inside_an_installed_crate() {
    let mut app = App::new();
    app.current_tab = Tab::Crates;
    app.installed_crates_list = vec!["serde".to_string(), "serde-json".to_string()];
    app.selected_installed_crate = Some(installed("serde"));
    app.installed_crate_items = vec![
        item(ItemKind::Struct, "Deserialize", &["serde", "de"]),
        item(ItemKind::Struct, "Serialize", &["serde", "ser"]),
    ];
    app.installed_crate_filtered = vec![0, 1];
    app.search_input = "serde::de::Deserialize".to_string();
    let action = press(&mut app, Key::Enter, NONE);
    assert!(matches!(action, KeyAction::Handled));
    assert_eq!(app.search_input, "de::Deserialize");
    assert_eq!(app.installed_crate_filtered, vec![0]);
    assert_eq!(app.focus, Focus::List);
}

#[test]
fn qualified_path_search_asks_for_another_crate() {
    let mut app = App::new();
    app.current_tab = Tab::Crates;
    app.installed_crates_list = vec!["serde".to_string(), "serde-json".to_string()];
    app.selected_installed_crate = Some(installed("serde"));
    app.search_input = "  serde_json::Value ".to_string();
    match press(&mut app, Key::Enter, NONE) {
        KeyAction::CompletePathSearch { name, rest } => {
            assert_eq!(name, "serde-json");
            assert_eq!(rest, "Value");
        }
        _ => panic!("expected the crate to be analyzed"),
    }
    app.search_input = "tokio::spawn".to_string();
    press(&mut app, Key::Enter, NONE);
    assert_eq!(app.status_message, "Crate 'tokio' not found");
}

#[test]
fn entering_a_dependency_asks_for_its_analysis() {
    let mut app = App::new();
    app.current_tab = Tab::Crates;
    app.focus = Focus::List;
    app.dependency_tree = vec![("app".to_string(), 0), ("serde".to_string(), 1)];
    app.filter_items();
    assert_eq!(app.filtered_dependency_indices, vec![0, 1]);
    app.list_state.select(Some(1));
    match press(&mut app, Key::Enter, NONE) {
        KeyAction::EnterInstalledCrate(name) => assert_eq!(name, "serde"),
        _ => panic!("expected the crate to be entered"),
    }
    app.enter_installed_crate(
        "serde",
        Some((installed("serde"), Ok(vec![item(ItemKind::Struct, "Value", &["serde"])]))),
    );
    assert_eq!(app.status_message, "serde: 1 items");
    assert_eq!(app.installed_crate_filtered, vec![0]);
    assert_eq!(app.list_state.selected(), Some(0));
    match press(&mut app, Key::Char('c'), NONE) {
        KeyAction::OpenCrate { name, url } => {
            assert_eq!(name, "serde");
            assert_eq!(url, "https://crates.io/crates/serde");
        }
        _ => panic!("expected the crate page"),
    }
    press(&mut app, Key::Char('h'), NONE);
    assert!(app.selected_installed_crate.is_none());
    app.list_state.select(Some(0));
    press(&mut app, Key::Enter, NONE);
    assert_eq!(app.focus, Focus::Inspector);
}

#[test]
fn shortcuts_close_the_help_instead_of_acting() {
    let mut app = app_with_items();
    app.focus = Focus::List;
    app.show_help = true;
    let action = press(&mut app, Key::Char('t'), NONE);
    assert!(matches!(action, KeyAction::Handled));
    assert!(!app.show_help);
    app.show_help = true;
    let action = press(&mut app, Key::Char('g'), NONE);
    assert!(matches!(action, KeyAction::Handled));
    assert!(!app.show_help);
    app.show_help = true;
    press(&mut app, Key::Esc, NONE);
    assert!(!app.show_help);
    assert!(!app.should_quit);
}

#[test]
fn search_qualified_path_takes_the_rest_of_the_path() {
    let mut app = App::new();
    app.installed_crates_list = vec!["serde".to_string()];
    app.search_input = "serde::de".to_string();
    let r = app.search_qualified_path();
    assert!(matches!(
        r,
        QualifiedSearch::Crate { ref name, select: true, ref rest } if name == "serde" && rest == "de"
    ));
    assert_eq!(app.search_input, "de");

    app.selected_installed_crate = Some(installed("serde"));
    app.installed_crate_items = vec![
        item(ItemKind::Struct, "Deserialize", &["serde", "de"]),
        item(ItemKind::Struct, "Serialize", &["serde", "ser"]),
    ];
    app.installed_crate_filtered = vec![0, 1];
    app.search_input = "  serde::ser::Serialize ".to_string();
    let r = app.search_qualified_path();
    assert!(matches!(r, QualifiedSearch::Crate { select: false, .. }));
    assert_eq!(app.search_input, "ser::Serialize");
    assert_eq!(app.installed_crate_filtered, vec![1]);

    app.search_input = "tokio::spawn".to_string();
    assert!(matches!(app.search_qualified_path(), QualifiedSearch::UnknownCrate));
    assert_eq!(app.status_message, "Crate 'tokio' not found");
    assert_eq!(app.search_input, "tokio::spawn");

    app.search_input = "plain".to_string();
    assert!(matches!(app.search_qualified_path(), QualifiedSearch::NotQualified));
    assert_eq!(app.search_input, "plain");
}
