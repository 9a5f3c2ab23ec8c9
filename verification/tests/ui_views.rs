use vizier_lib::analyzer::{AnalyzedItem, InstalledCrate, ItemKind, Visibility};
use vizier_lib::ui::app::inspector::{installed_crate_info_lines, item_page_lines, InspectorContent};
use vizier_lib::ui::app::list::list_scroll_offset;
use vizier_lib::ui::app::overlays::{help_lines, popup_rect, settings_lines};
use vizier_lib::ui::app::header::logo_lines;
use vizier_lib::ui::app::{Focus, Tab, VizierUi};
use vizier_lib::ui::dependency_view::{doc_failed_lines, doc_loading_lines};
use vizier_lib::ui::lines::{TextLine, TextStyle};
use vizier_lib::ui::markdown::markdown_line_to_spans;
use vizier_lib::ui::dependency_view::DependencyView;
use vizier_lib::ui::search::{CompletionCandidate, HighlightSpan};
use vizier_lib::ui::{CandidateKind, SearchBar, SearchCompletion};

type Ui<'a> = VizierUi<'a, (), ()>;

fn item(kind: ItemKind, name: &str, modules: &[&str], vis: Visibility) -> AnalyzedItem {
    AnalyzedItem {
        kind,
        name: name.to_string(),
        qualified_name: name.to_string(),
        modules: modules.iter().map(|m| m.to_string()).collect(),
        visibility: Some(vis),
        documentation: None,
        definition: String::new(),
        source_file: None,
        source_line: None,
    }
}

fn texts(l: &TextLine) -> Vec<(String, TextStyle)> {
    l.spans.iter().map(|s| (s.text.clone(), s.style)).collect()
}

fn joined(l: &TextLine) -> String {
    l.spans.iter().map(|s| s.text.as_str()).collect()
}

#[test]
fn scroll_offset_keeps_the_selection_visible() {
    assert_eq!(list_scroll_offset(None, 5), 0);
    assert_eq!(list_scroll_offset(Some(3), 5), 0);
    assert_eq!(list_scroll_offset(Some(5), 5), 1);
    assert_eq!(list_scroll_offset(Some(12), 5), 8);
    assert_eq!(list_scroll_offset(Some(12), 0), 0);
}

#[test]
fn item_list_rows_and_title() {
    let items = vec![
        item(ItemKind::Function, "run", &[], Visibility::Public),
        item(ItemKind::Struct, "App", &[], Visibility::Crate),
        item(ItemKind::Module, "ui", &[], Visibility::Private),
    ];
    let refs: Vec<&AnalyzedItem> = items.iter().collect();
    let ui = Ui::new(&()).items(&items).filtered_items(&refs).list_selected(Some(2)).search_input("u");
    let view = ui.list_view(2);
    assert_eq!(view.title, " Items (3/3) [3/3] ");
    assert_eq!(view.rows.len(), 2);
    assert_eq!(view.scrollbar, Some((3, 1)));
    assert!(!view.rows[0].selected);
    assert!(view.rows[1].selected);
    assert_eq!(
        texts(&view.rows[1].line),
        vec![
            ("▸ ".to_string(), TextStyle::Accent),
            ("○".to_string(), TextStyle::Dim),
            (" ".to_string(), TextStyle::Plain),
            ("mod    ".to_string(), TextStyle::Accent),
            ("ui".to_string(), TextStyle::Normal),
        ]
    );
    assert_eq!(joined(&view.rows[0].line), "  ◐ struct App");
    let ui = Ui::new(&()).items(&items).filtered_items(&refs);
    assert_eq!(ui.list_view(10).title, " Items (3) ");
    assert_eq!(ui.list_view(10).scrollbar, None);
}

#[test]
fn dependency_list_rows() {
    let tree = vec![("app".to_string(), 0), ("serde".to_string(), 1)];
    let indices = vec![1, 0];
    let ui = Ui::new(&())
        .current_tab(Tab::Crates)
        .dependency_tree(&tree)
        .filtered_dependency_indices(&indices)
        .list_selected(Some(0));
    let view = ui.list_view(10);
    assert_eq!(view.title, " Crates (2) ");
    assert_eq!(joined(&view.rows[0].line), "▸ 📦 serde");
    assert_eq!(joined(&view.rows[1].line), "  📦 app");
    let empty: Vec<(String, usize)> = Vec::new();
    let ui = Ui::new(&()).current_tab(Tab::Crates).dependency_tree(&empty);
    let view = ui.list_view(10);
    assert_eq!(view.title, " Crates (1) ");
    assert_eq!(joined(&view.rows[0].line), "▸ ○ No Cargo project");
    let none: Vec<usize> = Vec::new();
    let ui = Ui::new(&()).current_tab(Tab::Crates).dependency_tree(&tree).filtered_dependency_indices(&none);
    assert_eq!(joined(&ui.list_view(10).rows[0].line), "▸ ○ No matches for search");
}

#[test]
fn installed_crate_items_show_their_module() {
    let c = InstalledCrate {
        name: "serde".to_string(),
        version: "1.0.0".to_string(),
        description: Some("Serialization".to_string()),
        license: Some("MIT".to_string()),
        authors: vec!["A".to_string(), "B".to_string()],
        repository: None,
        documentation: None,
        keywords: vec!["serde".to_string()],
        categories: Vec::new(),
        path: "/reg/serde-1.0.0".to_string(),
    };
    let items = vec![
        item(ItemKind::Struct, "Deserializer", &["serde", "de"], Visibility::Public),
        item(ItemKind::Function, "f", &["serde"], Visibility::Public),
    ];
    let refs: Vec<&AnalyzedItem> = items.iter().collect();
    let ui = Ui::new(&())
        .current_tab(Tab::Crates)
        .selected_installed_crate(Some(&c))
        .installed_crate_items(&refs)
        .list_selected(Some(0));
    let view = ui.list_view(10);
    assert_eq!(view.title, " 📦 serde v1.0.0 (2 items) [Esc] ");
    assert_eq!(joined(&view.rows[0].line), "▸ ● struct de::Deserializer");
    assert_eq!(joined(&view.rows[1].line), "  ● fn     f");
    let page = installed_crate_info_lines(&c, 2);
    let all: Vec<String> = page.iter().map(joined).collect();
    assert_eq!(all[0], "📦 serde v1.0.0");
    assert!(all.contains(&"  Authors: A, B".to_string()));
    assert!(all.contains(&"   serde ".to_string()));
    assert!(all.contains(&"  2 items found".to_string()));
    assert_eq!(all.last().unwrap(), " [o] docs.rs   [c] crates.io");
    assert!(matches!(ui.inspector_content(), InspectorContent::InstalledCrateInfo));
}

#[test]
fn status_line_by_context() {
    let items = vec![
        item(ItemKind::Function, "a", &[], Visibility::Public),
        item(ItemKind::Function, "b", &[], Visibility::Public),
        item(ItemKind::Struct, "C", &[], Visibility::Public),
    ];
    let refs: Vec<&AnalyzedItem> = items.iter().collect();
    let ui = Ui::new(&()).items(&items).filtered_items(&refs).list_selected(Some(1));
    let s = joined(&ui.status_line());
    assert!(s.contains("fn:2 struct:1 selection [2/3]"));
    let ui = Ui::new(&()).status_message("Found 3 items");
    assert!(joined(&ui.status_line()).starts_with(" Found 3 items  │ Tab focus"));
    let indices = vec![0, 1, 2];
    let ui = Ui::new(&()).current_tab(Tab::Crates).filtered_dependency_indices(&indices);
    assert!(joined(&ui.status_line()).contains("📦 Crates (3) │  [g] GitHub [s] Sponsor"));
}

#[test]
fn markdown_lines() {
    let spans = markdown_line_to_spans("## Title", TextStyle::Normal, TextStyle::Strong);
    assert_eq!(spans.len(), 2);
    assert_eq!(spans[1].text, "Title");
    assert_eq!(spans[1].style, TextStyle::AccentBold);
    let spans = markdown_line_to_spans("use **bold** and `code` here", TextStyle::Normal, TextStyle::Strong);
    let got: Vec<(String, TextStyle)> = spans.iter().map(|s| (s.text.clone(), s.style)).collect();
    assert_eq!(
        got,
        vec![
            ("use ".to_string(), TextStyle::Normal),
            ("bold".to_string(), TextStyle::Strong),
            (" and ".to_string(), TextStyle::Normal),
            ("code".to_string(), TextStyle::Type),
            (" here".to_string(), TextStyle::Normal),
        ]
    );
    let spans = markdown_line_to_spans("plain text", TextStyle::Normal, TextStyle::Strong);
    assert_eq!(texts_of(&spans), vec![("plain text".to_string(), TextStyle::Normal)]);
}

fn texts_of(spans: &[vizier_lib::ui::lines::TextSpan]) -> Vec<(String, TextStyle)> {
    spans.iter().map(|s| (s.text.clone(), s.style)).collect()
}

#[test]
fn unclosed_markdown_markers_are_plain_text() {
    let spans = markdown_line_to_spans("a ** b", TextStyle::Normal, TextStyle::Strong);
    assert_eq!(
        texts_of(&spans),
        vec![
            ("a ".to_string(), TextStyle::Normal),
            ("**".to_string(), TextStyle::Normal),
            (" b".to_string(), TextStyle::Normal),
        ]
    );
    let spans = markdown_line_to_spans("`a` then `b", TextStyle::Normal, TextStyle::Strong);
    assert_eq!(
        texts_of(&spans),
        vec![
            ("a".to_string(), TextStyle::Type),
            (" then ".to_string(), TextStyle::Normal),
            ("`".to_string(), TextStyle::Normal),
            ("b".to_string(), TextStyle::Normal),
        ]
    );
}

#[test]
fn chat_view_shows_the_end_of_the_conversation() {
    let msgs = vec![
        ("user".to_string(), "What is **this**?".to_string()),
        ("assistant".to_string(), "It is `Foo`.\nSecond line".to_string()),
    ];
    let ui = Ui::new(&()).copilot_chat_messages(&msgs).copilot_chat_scroll(100).focus(Focus::CopilotChat);
    let v = ui.chat_view(3);
    assert_eq!(v.scrollbar, Some((7, 4)));
    assert_eq!(v.lines.len(), 3);
    assert_eq!(joined(&v.lines[0].clone()), "    It is Foo.");
    assert_eq!(joined(&v.lines[2].clone()), "");
    assert_eq!(joined(&v.input), " ▸ Ask about this item… (Enter to send, Esc to close)");
    let ui = Ui::new(&()).copilot_chat_messages(&msgs[..1]).copilot_chat_loading(true);
    let v = ui.chat_view(10);
    assert_eq!(joined(&v.lines[0]), "  … Copilot is thinking…");
    assert_eq!(joined(&v.lines[1]), "  You: ");
    assert_eq!(joined(&v.lines[2]), "    What is **this**?");
}

#[test]
fn inspector_choice_on_the_crates_tab() {
    let tree = vec![("app".to_string(), 0), ("serde".to_string(), 1)];
    let indices = vec![0, 1];
    let base = Ui::new(&()).current_tab(Tab::Crates).dependency_tree(&tree).filtered_dependency_indices(&indices);
    assert!(matches!(base.list_selected(Some(0)).inspector_content(), InspectorContent::RootCrateInfo));
    match base.list_selected(Some(1)).crate_doc_failed(true).inspector_content() {
        InspectorContent::DocFailed(n) => assert_eq!(n, "serde"),
        _ => panic!("expected the failure page"),
    }
    match base.list_selected(Some(1)).inspector_content() {
        InspectorContent::DocLoading(n) => assert_eq!(n, "serde"),
        _ => panic!("expected the loading page"),
    }
    assert!(matches!(Ui::new(&()).inspector_content(), InspectorContent::Item));
}

#[test]
fn overlays_and_header() {
    assert_eq!(popup_rect(0, 0, 100, 40, 48, 10), (26, 15, 48, 10));
    assert_eq!(popup_rect(2, 1, 20, 6, 62, 30), (4, 3, 16, 2));
    assert_eq!(popup_rect(0, 0, 3, 3, 48, 10), (1, 1, 0, 0));
    assert_eq!(settings_lines().len(), 6);
    let help = help_lines();
    assert_eq!(help.len(), 35);
    assert_eq!(joined(&help[0]), "⌨️  Keyboard Shortcuts");
    assert_eq!(joined(help.last().unwrap()), "Press any key to close");
    assert_eq!(logo_lines(3).len(), 3);
    assert_eq!(logo_lines(20).len(), 6);
    let items = vec![
        item(ItemKind::Struct, "A", &[], Visibility::Public),
        item(ItemKind::Enum, "B", &[], Visibility::Public),
        item(ItemKind::Function, "c", &[], Visibility::Public),
        item(ItemKind::Module, "d", &[], Visibility::Public),
    ];
    let tree = vec![("app".to_string(), 0)];
    let ui = Ui::new(&()).items(&items).dependency_tree(&tree).target_size_bytes(Some(10));
    let m = ui.header_metric_lines("10 B");
    assert_eq!(m[0], "📦 2 types · 1 fns · 1 mods");
    assert_eq!(m[1], "📚 1 crates · target 10 B");
    assert_eq!(m[2], "👤 created by yashksaini-coder");
}

#[test]
fn search_bar_and_doc_pages() {
    let bar = SearchBar::new("", &()).placeholder("Search functions...");
    assert_eq!(joined(&bar.line()), "❯ Search functions...▏");
    let bar = SearchBar::new("ab", &()).focused(false);
    assert_eq!(joined(&bar.line()), "❯ ab");
    let ui = Ui::new(&()).current_tab(Tab::Crates);
    assert_eq!(ui.search_placeholder(), "Search crates... (filter by name)");
    assert_eq!(joined(&doc_loading_lines("serde")[1]), "Loading documentation for serde from crates.io…");
    assert_eq!(joined(&doc_failed_lines("serde")[1]), "Could not load documentation for serde.");
}

#[test]
fn section_header_line() {
    let l = vizier_lib::ui::tokens::section_header("Usage");
    assert_eq!(
        texts(&l),
        vec![
            ("  ▸ ".to_string(), TextStyle::Accent),
            ("Usage".to_string(), TextStyle::AccentBold),
            (" ─────────────────".to_string(), TextStyle::Muted),
        ]
    );
}

#[test]
fn candidate_kind_colors() {
    assert_eq!(CandidateKind::Function.color(), TextStyle::Function);
    assert_eq!(CandidateKind::Enum.color(), TextStyle::Type);
    assert_eq!(CandidateKind::Trait.color(), TextStyle::Keyword);
    assert_eq!(CandidateKind::Crate.color(), TextStyle::Accent);
    assert_eq!(CandidateKind::Const.color(), TextStyle::Number);
    assert_eq!(CandidateKind::Other.color(), TextStyle::Dim);
}

#[test]
fn dependency_view_height_without_a_crate() {
    let theme = ();
    let plain = DependencyView::new(&theme).show_browser_hint(false);
    assert_eq!(plain.content_height(), 8);
    assert_eq!(plain.empty_lines().len(), 8);
    let hinted = DependencyView::new(&theme).show_browser_hint(true);
    assert_eq!(hinted.content_height(), 10);
    assert_eq!(hinted.empty_lines().len(), 10);
}

#[test]
fn completion_rows_highlight_and_show_secondary_text() {
    let theme = ();
    let cs = vec![
        CompletionCandidate {
            primary: "serde".to_string(),
            secondary: Some("crate".to_string()),
            kind: CandidateKind::Crate,
            score: 0,
        },
        CompletionCandidate {
            primary: "Vec".to_string(),
            secondary: None,
            kind: CandidateKind::Struct,
            score: 0,
        },
    ];
    let rows = SearchCompletion::new(&cs, &theme).selected(1).filter("").rows();
    assert_eq!(rows.len(), 2);
    assert_eq!(rows[0].icon, "cr");
    assert_eq!(rows[0].icon_style, TextStyle::Accent);
    assert_eq!(rows[0].secondary, Some(" crate".to_string()));
    assert_eq!(rows[0].pieces, vec![HighlightSpan { start: 0, end: 5, matched: false }]);
    assert!(!rows[0].selected && rows[1].selected);
    assert_eq!(rows[1].secondary, None);
    let rows = SearchCompletion::new(&cs, &theme).filter("sd").max_visible(1).rows();
    assert_eq!(rows.len(), 1);
    let matched: Vec<usize> = rows[0].pieces.iter().filter(|p| p.matched).map(|p| p.start).collect();
    assert_eq!(matched, vec![0, 3]);
}

#[test]
fn item_page_shows_path_location_docs_and_definition() {
    let mut it = item(ItemKind::Function, "parse", &["demo"], Visibility::Public);
    it.qualified_name = "demo::parse".to_string();
    it.source_file = Some("src/lib.rs".to_string());
    it.source_line = Some(12);
    it.documentation = Some("Parses.\nQuickly.".to_string());
    it.definition = "pub fn parse()".to_string();
    let lines = item_page_lines(&it);
    let shown: Vec<Vec<(String, TextStyle)>> = lines.iter().map(texts).collect();
    assert_eq!(shown[0], vec![("fn ".to_string(), TextStyle::Keyword), ("parse".to_string(), TextStyle::AccentBold)]);
    assert_eq!(shown[1], vec![("demo::parse".to_string(), TextStyle::Dim)]);
    assert_eq!(shown[2], vec![("src/lib.rs:12".to_string(), TextStyle::Muted)]);
    assert!(shown[3].is_empty());
    assert_eq!(shown[4][1].0, "Documentation");
    assert_eq!(shown[5], vec![("Parses.".to_string(), TextStyle::Normal)]);
    assert_eq!(shown[6], vec![("Quickly.".to_string(), TextStyle::Normal)]);
    assert!(shown[7].is_empty());
    assert_eq!(shown[8][1].0, "Definition");
    assert_eq!(shown[9], vec![("pub fn parse()".to_string(), TextStyle::Normal)]);
    assert_eq!(shown.len(), 10);
}
