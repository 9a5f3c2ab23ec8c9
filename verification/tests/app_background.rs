use vizier_lib::analyzer::dependency::{PackageMetadata, WorkspaceMetadata};
use vizier_lib::analyzer::{AnalyzedItem, DependencyAnalyzer, InstalledCrate, ItemKind};
use vizier_lib::app::copilot::{copilot_command_args, copilot_reply, CopilotOutcome};
use vizier_lib::app::project::summaries_fit;
use vizier_lib::app::state::{DocCache, CRATE_DOCS_CACHE_MAX};
use vizier_lib::app::App;
use vizier_lib::crates_io::CrateDocInfo;
use vizier_lib::ui::app::Tab;

fn doc(name: &str) -> CrateDocInfo {
    CrateDocInfo {
        name: name.to_string(),
        version: "1.0.0".to_string(),
        description: None,
        documentation: None,
        homepage: None,
        repository: None,
        github: None,
    }
}

fn item(name: &str, documentation: Option<&str>) -> AnalyzedItem {
    AnalyzedItem {
        kind: ItemKind::Function,
        name: name.to_string(),
        qualified_name: name.to_string(),
        modules: Vec::new(),
        visibility: None,
        documentation: documentation.map(|d| d.to_string()),
        definition: String::new(),
        source_file: None,
        source_line: None,
    }
}

#[test]
fn doc_cache_keeps_at_most_fifty_crates() {
    let mut cache = DocCache::new();
    for i in 0..CRATE_DOCS_CACHE_MAX {
        cache.insert(format!("c{}", i), doc("x"));
    }
    assert_eq!(cache.len(), 50);
    cache.insert("c0".to_string(), doc("again"));
    assert_eq!(cache.len(), 50);
    cache.insert("new".to_string(), doc("new"));
    assert_eq!(cache.len(), 50);
    assert!(cache.contains_key("new"));
    assert_eq!(cache.get("new").unwrap().name, "new");
    assert!(cache.get("missing").is_none());
}

#[test]
fn crate_docs_are_fetched_once() {
    let mut app = App::new();
    app.current_tab = Tab::Crates;
    app.dependency_tree = vec![("app".to_string(), 0), ("serde".to_string(), 1)];
    app.filtered_dependency_indices = vec![0, 1];
    app.list_state.select(Some(0));
    assert_eq!(app.maybe_start_crate_doc_fetch(), None);
    app.list_state.select(Some(1));
    assert_eq!(app.maybe_start_crate_doc_fetch(), Some("serde".to_string()));
    assert_eq!(app.crate_docs_loading.as_deref(), Some("serde"));
    assert_eq!(app.maybe_start_crate_doc_fetch(), None);
    app.receive_crate_doc("serde".to_string(), Some(doc("serde")));
    assert!(app.crate_docs_loading.is_none());
    assert!(app.crate_docs_cache.contains_key("serde"));
    assert_eq!(app.maybe_start_crate_doc_fetch(), None);
    app.receive_crate_doc("tokio".to_string(), None);
    assert!(app.crate_docs_failed.contains_key("tokio"));
}

#[test]
fn scanning_and_selecting_installed_crates() {
    let mut app = App::new();
    assert_eq!(app.scan_installed_crates(Err("no registry".to_string())), Err("no registry".to_string()));
    assert_eq!(app.status_message, "Scanning installed crates...");
    assert_eq!(app.scan_installed_crates(Ok(vec!["a".to_string(), "b".to_string()])), Ok(()));
    assert_eq!(app.status_message, "Found 2 installed crates");
    let c = InstalledCrate {
        name: "a".to_string(),
        version: "0.1.0".to_string(),
        description: None,
        license: None,
        authors: Vec::new(),
        repository: None,
        documentation: None,
        keywords: Vec::new(),
        categories: Vec::new(),
        path: String::new(),
    };
    app.select_installed_crate("a", Some((c.clone(), Err("bad source".to_string()))));
    assert_eq!(app.status_message, "Analysis failed: bad source");
    assert!(app.selected_installed_crate.is_some());
    app.select_installed_crate("a", Some((c, Ok(vec![item("f", None), item("g", None)]))));
    assert_eq!(app.status_message, "a: 2 items");
    assert_eq!(app.installed_crate_filtered, vec![0, 1]);
    app.clear_installed_crate();
    assert!(app.installed_crate_items.is_empty());
}

#[test]
fn opening_a_project() {
    let mut app = App::new();
    assert_eq!(
        app.open_project("/missing", false, None),
        Err("Path does not exist: /missing".to_string())
    );
    let w = WorkspaceMetadata {
        packages: vec![PackageMetadata {
            name: "demo".to_string(),
            version: "0.1.0".to_string(),
            authors: Vec::new(),
            license: None,
            description: None,
            homepage: None,
            repository: None,
            documentation: None,
            dependencies: Vec::new(),
            features: Vec::new(),
            edition: "2021".to_string(),
            rust_version: None,
        }],
        root: Some(0),
    };
    let a = DependencyAnalyzer::from_metadata(w);
    assert_eq!(app.open_project("/p", true, Some(Ok(a))), Ok(()));
    assert_eq!(app.status_message, "Analyzing /p...");
    assert_eq!(app.dependency_tree, vec![("demo".to_string(), 0)]);
    assert_eq!(app.crate_info.as_ref().unwrap().name, "demo");
    app.finish_project_analysis("/p", None);
    assert_eq!(app.status_message, "No Rust files found in /p");
    app.items = vec![item("f", Some("Does a thing.\nMore.")), item("g", None)];
    assert!(summaries_fit(&app.items));
    app.finish_project_analysis("/p", Some(42));
    assert_eq!(app.status_message, "Found 2 items");
    assert_eq!(app.target_size_bytes, Some(42));
    assert_eq!(app.candidates.len(), 2);
    assert_eq!(app.candidates[0].secondary.as_deref(), Some("Does a thing."));
    let mut other = App::new();
    assert_eq!(other.open_project("/q", true, Some(Err("no cargo".to_string()))), Ok(()));
    assert_eq!(other.status_message, "Cargo analysis failed: no cargo");
}

#[test]
fn long_summaries_are_cut() {
    let long = "x".repeat(50);
    let mut app = App::new();
    app.items = vec![item("f", Some(&long))];
    app.update_candidates();
    assert_eq!(app.candidates[0].secondary.as_deref(), Some(format!("{}...", "x".repeat(37)).as_str()));
    let bad = format!("{}é{}", "x".repeat(36), "y".repeat(10));
    assert!(!summaries_fit(&[item("f", Some(&bad))]));
}

#[test]
fn copilot_process_arguments_and_replies() {
    assert_eq!(copilot_command_args("p", None), vec!["-p", "p", "--allow-all", "-s"]);
    assert_eq!(
        copilot_command_args("p", Some("/x")),
        vec!["-p", "p", "--allow-all", "-s", "--add-dir", "/x"]
    );
    let ok = CopilotOutcome::Finished {
        success: true,
        status: "exit status: 0".to_string(),
        stdout: "  answer \n".to_string(),
        stderr: String::new(),
    };
    assert_eq!(copilot_reply(ok), "answer");
    let failed = CopilotOutcome::Finished {
        success: false,
        status: "exit status: 1".to_string(),
        stdout: String::new(),
        stderr: "boom".to_string(),
    };
    assert_eq!(copilot_reply(failed), "Copilot error (exit exit status: 1): boom");
    assert_eq!(
        copilot_reply(CopilotOutcome::NotStarted("not found".to_string())),
        "Failed to run copilot: not found"
    );
}

#[test]
fn submitting_without_a_selected_item() {
    let mut app = App::new();
    app.copilot_chat_input = "   ".to_string();
    assert_eq!(app.submit_copilot_message(), None);
    assert!(app.copilot_chat_messages.is_empty());
    app.copilot_chat_input = " hi ".to_string();
    assert_eq!(app.submit_copilot_message(), None);
    assert_eq!(
        app.copilot_chat_messages,
        vec![
            ("user".to_string(), "hi".to_string()),
            ("assistant".to_string(), "No item selected.".to_string())
        ]
    );
}

#[test]
fn several_doc_messages_are_taken_in_order() {
    let mut app = App::new();
    app.crate_docs_loading = Some("b".to_string());
    app.receive_crate_docs(vec![
        ("a".to_string(), Some(doc("a"))),
        ("b".to_string(), None),
        ("c".to_string(), Some(doc("c"))),
    ]);
    assert_eq!(app.crate_docs_loading, None);
    assert!(app.crate_docs_failed.contains_key("b"));
    assert!(!app.crate_docs_failed.contains_key("a"));
    assert_eq!(app.crate_docs_cache.get("c").map(|d| d.name.clone()), Some("c".to_string()));
    assert_eq!(app.crate_docs_cache.get("a").map(|d| d.name.clone()), Some("a".to_string()));
    assert_eq!(app.crate_docs_cache.len(), 2);

    app.crate_docs_loading = Some("z".to_string());
    app.receive_crate_docs(vec![]);
    assert_eq!(app.crate_docs_loading, Some("z".to_string()));
}

#[test]
fn doc_state_of_the_selected_dependency() {
    let mut app = App::new();
    let (d, loading, failed) = app.selected_doc_state();
    assert!(d.is_none() && loading && !failed);
    app.current_tab = Tab::Crates;
    app.dependency_tree = vec![("root".to_string(), 0), ("dep".to_string(), 1)];
    app.filtered_dependency_indices = vec![0, 1];
    app.list_state.select(Some(1));
    app.crate_docs_loading = Some("dep".to_string());
    let (d, loading, failed) = app.selected_doc_state();
    assert!(d.is_none() && loading && !failed);
    app.receive_crate_doc("dep".to_string(), Some(doc("dep")));
    let (d, loading, failed) = app.selected_doc_state();
    assert_eq!(d.map(|x| x.name.clone()), Some("dep".to_string()));
    assert!(!loading && !failed);
}
