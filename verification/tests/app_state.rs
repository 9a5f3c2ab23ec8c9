use vizier_lib::analyzer::{AnalyzedItem, ItemKind, Visibility};
use vizier_lib::app::state::inspector_scroll_after;
use vizier_lib::app::App;
use vizier_lib::ui::app::Tab;

fn item(kind: ItemKind, name: &str) -> AnalyzedItem {
    AnalyzedItem {
        kind,
        name: name.to_string(),
        qualified_name: name.to_string(),
        modules: Vec::new(),
        visibility: Some(Visibility::Public),
        documentation: None,
        definition: String::new(),
        source_file: None,
        source_line: None,
    }
}

fn make_app_with_items() -> App {
    // The items of `pub struct Foo {}`, `pub fn bar() {}` and `pub mod baz {}`.
    let items = vec![
        item(ItemKind::Struct, "Foo"),
        item(ItemKind::Function, "bar"),
        item(ItemKind::Module, "baz"),
    ];
    let mut app = App::new();
    app.items = items;
    app.filtered_items = vec![0, 1, 2];
    app.list_state.select(Some(0));
    app
}

#[test]
fn test_get_current_list_len_types_tab() {
    let mut app = make_app_with_items();
    app.current_tab = Tab::Types;
    app.filter_items();
    assert_eq!(app.get_current_list_len(), 1);
}

#[test]
fn test_get_current_list_len_functions_tab() {
    let mut app = make_app_with_items();
    app.current_tab = Tab::Functions;
    app.filter_items();
    assert_eq!(app.get_current_list_len(), 1);
}

#[test]
fn test_get_current_list_len_crates_tab_empty_tree() {
    let mut app = App::new();
    app.current_tab = Tab::Crates;
    app.dependency_tree = vec![];
    app.filtered_dependency_indices = vec![];
    assert_eq!(app.get_current_list_len(), 1);
}

#[test]
fn test_get_current_list_len_crates_tab_with_deps() {
    let mut app = App::new();
    app.current_tab = Tab::Crates;
    app.dependency_tree = vec![
        ("rustlens".to_string(), 0),
        ("serde".to_string(), 1),
        ("ratatui".to_string(), 1),
    ];
    app.filtered_dependency_indices = vec![0, 1, 2];
    assert_eq!(app.get_current_list_len(), 3);
}

#[test]
fn test_selected_dependency_name_none_when_wrong_tab() {
    let mut app = App::new();
    app.current_tab = Tab::Types;
    app.dependency_tree = vec![("rustlens".to_string(), 0)];
    app.filtered_dependency_indices = vec![0];
    app.list_state.select(Some(0));
    assert!(app.selected_dependency_name().is_none());
}

#[test]
fn test_selected_dependency_name_returns_selected() {
    let mut app = App::new();
    app.current_tab = Tab::Crates;
    app.dependency_tree = vec![("rustlens".to_string(), 0), ("serde".to_string(), 1)];
    app.filtered_dependency_indices = vec![0, 1];
    app.list_state.select(Some(1));
    assert_eq!(app.selected_dependency_name(), Some("serde".to_string()));
}

#[test]
fn test_dependency_root_name() {
    let mut app = App::new();
    app.dependency_tree = vec![("rustlens".to_string(), 0), ("serde".to_string(), 1)];
    assert_eq!(app.dependency_root_name(), Some("rustlens"));
    app.dependency_tree.clear();
    assert!(app.dependency_root_name().is_none());
}

#[test]
fn test_selected_item_types_tab() {
    let mut app = make_app_with_items();
    app.current_tab = Tab::Types;
    app.filter_items();
    app.list_state.select(Some(0));
    let item = app.selected_item().unwrap();
    assert_eq!(item.name(), "Foo");
}

#[test]
fn test_get_filtered_items() {
    let mut app = make_app_with_items();
    app.current_tab = Tab::Types;
    app.filter_items();
    let filtered = app.get_filtered_items();
    assert_eq!(filtered.len(), 1);
    assert_eq!(filtered[0].name(), "Foo");
}

#[test]
fn test_installed_crates_display_list_empty_tree_returns_all_installed() {
    let mut app = App::new();
    app.dependency_tree = vec![];
    app.installed_crates_list = vec!["foo".into(), "bar".into()];
    let list = app.installed_crates_display_list();
    assert_eq!(list, vec!["foo", "bar"]);
}

#[test]
fn test_installed_crates_display_list_filters_by_project_deps() {
    let mut app = App::new();
    app.dependency_tree = vec![("rustlens".to_string(), 0), ("serde".to_string(), 1)];
    app.installed_crates_list = vec!["serde".into(), "other".into()];
    let list = app.installed_crates_display_list();
    assert_eq!(list, vec!["serde"]);
}

#[test]
fn toggling_overlays_twice_restores_them() {
    let mut app = make_app_with_items();
    app.toggle_help();
    assert!(app.show_help);
    app.toggle_help();
    assert!(!app.show_help);
    app.toggle_settings();
    assert!(app.show_settings);
    app.toggle_settings();
    assert!(!app.show_settings);
}

#[test]
fn typing_then_deleting_restores_the_search() {
    let mut app = make_app_with_items();
    app.on_char('F');
    assert_eq!(app.search_input, "F");
    app.on_backspace();
    assert_eq!(app.search_input, "");
    let mut fresh = make_app_with_items();
    fresh.filter_items();
    assert_eq!(app.filtered_items, fresh.filtered_items);
}

#[test]
fn installed_crates_of_a_project_without_dependencies() {
    let mut app = App::new();
    app.dependency_tree = vec![("rustlens".to_string(), 0)];
    app.installed_crates_list = vec!["foo".into(), "bar".into()];
    assert!(app.installed_crates_display_list().is_empty());
}

#[test]
fn inspector_scroll_resets_on_a_new_selection() {
    assert_eq!(inspector_scroll_after(Some(1), Some(1), 7), 7);
    assert_eq!(inspector_scroll_after(Some(1), Some(2), 7), 0);
    assert_eq!(inspector_scroll_after(None, Some(0), 3), 0);
    assert_eq!(inspector_scroll_after(None, None, 3), 3);
}

#[test]
fn setting_the_theme_records_and_reports_it() {
    let mut app = make_app_with_items();
    app.set_theme("ocean", "Ocean");
    assert_eq!(app.settings.ui.theme, "ocean");
    assert_eq!(app.status_message, "Theme: Ocean");
    assert_eq!(app.settings.ui.tab_width, 4);
}
