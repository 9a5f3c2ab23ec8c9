//! The main view's state: what the panels show, set through a builder. Drawing
//! it is done outside the library; the decisions it needs are made here.

pub mod chat;
pub mod header;
pub mod inspector;
pub mod list;
pub mod overlays;
pub mod status;
pub mod types;

use vstd::prelude::*;

use crate::analyzer::{AnalyzedItem, CrateInfo, InstalledCrate};
use crate::crates_io::CrateDocInfo;
use crate::ui::search::CompletionCandidate;

pub use types::{Focus, Tab};

verus! {

/// Everything the main view shows. `Th` is the colour theme and `Anim` the
/// animation state, both only carried for drawing.
#[derive(Clone, Copy)]
pub struct VizierUi<'a, Th, Anim> {
    pub items: &'a [AnalyzedItem],
    pub all_items_impl_lookup: Option<&'a [AnalyzedItem]>,
    pub filtered_items: &'a [&'a AnalyzedItem],
    pub selected_installed_crate: Option<&'a InstalledCrate>,
    pub installed_crate_items: &'a [&'a AnalyzedItem],
    pub target_size_bytes: Option<u64>,
    pub list_selected: Option<usize>,
    pub candidates: &'a [CompletionCandidate],
    pub crate_info: Option<&'a CrateInfo>,
    pub dependency_tree: &'a [(String, usize)],
    pub filtered_dependency_indices: &'a [usize],
    pub crate_doc: Option<&'a CrateDocInfo>,
    pub crate_doc_loading: bool,
    pub crate_doc_failed: bool,
    pub search_input: &'a str,
    pub current_tab: Tab,
    pub focus: Focus,
    pub selected_item: Option<&'a AnalyzedItem>,
    pub completion_selected: usize,
    pub show_completion: bool,
    pub show_help: bool,
    pub show_settings: bool,
    pub status_message: &'a str,
    pub inspector_scroll: usize,
    pub animation: Option<&'a Anim>,
    pub theme: &'a Th,
    pub show_copilot_chat: bool,
    pub copilot_chat_messages: &'a [(String, String)],
    pub copilot_chat_input: &'a str,
    pub copilot_chat_loading: bool,
    pub copilot_chat_scroll: usize,
}

impl<'a, Th, Anim> VizierUi<'a, Th, Anim> {
    /// An empty view on the default tab, with the default focus and nothing selected.
    pub fn new(theme: &'a Th) -> (ui: Self)
        ensures
            ui.items@.len() == 0,
            ui.all_items_impl_lookup is None,
            ui.filtered_items@.len() == 0,
            ui.selected_installed_crate is None,
            ui.installed_crate_items@.len() == 0,
            ui.target_size_bytes is None,
            ui.list_selected is None,
            ui.candidates@.len() == 0,
            ui.crate_info is None,
            ui.dependency_tree@.len() == 0,
            ui.filtered_dependency_indices@.len() == 0,
            ui.crate_doc is None,
            ui.crate_doc_loading == false,
            ui.crate_doc_failed == false,
            ui.search_input@ == ""@,
            ui.current_tab == Tab::Types,
            ui.focus == Focus::Search,
            ui.selected_item is None,
            ui.completion_selected == 0,
            ui.show_completion == false,
            ui.show_help == false,
            ui.show_settings == false,
            ui.status_message@ == ""@,
            ui.inspector_scroll == 0,
            ui.animation is None,
            ui.theme == theme,
            ui.show_copilot_chat == false,
            ui.copilot_chat_messages@.len() == 0,
            ui.copilot_chat_input@ == ""@,
            ui.copilot_chat_loading == false,
            ui.copilot_chat_scroll == 0,
    {
        VizierUi {
            items: &[],
            all_items_impl_lookup: None,
            filtered_items: &[],
            selected_installed_crate: None,
            installed_crate_items: &[],
            target_size_bytes: None,
            list_selected: None,
            candidates: &[],
            crate_info: None,
            dependency_tree: &[],
            filtered_dependency_indices: &[],
            crate_doc: None,
            crate_doc_loading: false,
            crate_doc_failed: false,
            search_input: "",
            current_tab: Tab::default(),
            focus: Focus::default(),
            selected_item: None,
            completion_selected: 0,
            show_completion: false,
            show_help: false,
            show_settings: false,
            status_message: "",
            inspector_scroll: 0,
            animation: None,
            theme,
            show_copilot_chat: false,
            copilot_chat_messages: &[],
            copilot_chat_input: "",
            copilot_chat_loading: false,
            copilot_chat_scroll: 0,
        }
    }

    /// Sets the analyzed items of the project.
    pub fn items(self, items: &'a [AnalyzedItem]) -> (ui: Self)
        ensures
            ui == (VizierUi { items: items, ..self }),
    {
        VizierUi { items: items, ..self }
    }

    /// Sets the items searched for trait implementations.
    pub fn all_items_impl_lookup(self, items: Option<&'a [AnalyzedItem]>) -> (ui: Self)
        ensures
            ui == (VizierUi { all_items_impl_lookup: items, ..self }),
    {
        VizierUi { all_items_impl_lookup: items, ..self }
    }

    /// Sets the items listed under the current tab and search.
    pub fn filtered_items(self, items: &'a [&'a AnalyzedItem]) -> (ui: Self)
        ensures
            ui == (VizierUi { filtered_items: items, ..self }),
    {
        VizierUi { filtered_items: items, ..self }
    }

    /// Sets the installed crate being browsed.
    pub fn selected_installed_crate(self, crate_info: Option<&'a InstalledCrate>) -> (ui: Self)
        ensures
            ui == (VizierUi { selected_installed_crate: crate_info, ..self }),
    {
        VizierUi { selected_installed_crate: crate_info, ..self }
    }

    /// Sets the listed items of the installed crate being browsed.
    pub fn installed_crate_items(self, items: &'a [&'a AnalyzedItem]) -> (ui: Self)
        ensures
            ui == (VizierUi { installed_crate_items: items, ..self }),
    {
        VizierUi { installed_crate_items: items, ..self }
    }

    /// Sets the size of the build output directory.
    pub fn target_size_bytes(self, bytes: Option<u64>) -> (ui: Self)
        ensures
            ui == (VizierUi { target_size_bytes: bytes, ..self }),
    {
        VizierUi { target_size_bytes: bytes, ..self }
    }

    /// Sets the selected list row.
    pub fn list_selected(self, selected: Option<usize>) -> (ui: Self)
        ensures
            ui == (VizierUi { list_selected: selected, ..self }),
    {
        VizierUi { list_selected: selected, ..self }
    }

    /// Sets the completion candidates.
    pub fn candidates(self, candidates: &'a [CompletionCandidate]) -> (ui: Self)
        ensures
            ui == (VizierUi { candidates: candidates, ..self }),
    {
        VizierUi { candidates: candidates, ..self }
    }

    /// Sets the root crate's information.
    pub fn crate_info(self, info: Option<&'a CrateInfo>) -> (ui: Self)
        ensures
            ui == (VizierUi { crate_info: info, ..self }),
    {
        VizierUi { crate_info: info, ..self }
    }

    /// Sets the dependency tree as (name, depth) pairs.
    pub fn dependency_tree(self, tree: &'a [(String, usize)]) -> (ui: Self)
        ensures
            ui == (VizierUi { dependency_tree: tree, ..self }),
    {
        VizierUi { dependency_tree: tree, ..self }
    }

    /// Sets the dependency tree entries listed on the Crates tab.
    pub fn filtered_dependency_indices(self, indices: &'a [usize]) -> (ui: Self)
        ensures
            ui == (VizierUi { filtered_dependency_indices: indices, ..self }),
    {
        VizierUi { filtered_dependency_indices: indices, ..self }
    }

    /// Sets the fetched documentation of the selected dependency.
    pub fn crate_doc(self, doc: Option<&'a CrateDocInfo>) -> (ui: Self)
        ensures
            ui == (VizierUi { crate_doc: doc, ..self }),
    {
        VizierUi { crate_doc: doc, ..self }
    }

    /// Sets whether that documentation is being fetched.
    pub fn crate_doc_loading(self, loading: bool) -> (ui: Self)
        ensures
            ui == (VizierUi { crate_doc_loading: loading, ..self }),
    {
        VizierUi { crate_doc_loading: loading, ..self }
    }

    /// Sets whether fetching that documentation failed.
    pub fn crate_doc_failed(self, failed: bool) -> (ui: Self)
        ensures
            ui == (VizierUi { crate_doc_failed: failed, ..self }),
    {
        VizierUi { crate_doc_failed: failed, ..self }
    }

    /// Sets the search input.
    pub fn search_input(self, input: &'a str) -> (ui: Self)
        ensures
            ui == (VizierUi { search_input: input, ..self }),
    {
        VizierUi { search_input: input, ..self }
    }

    /// Sets the current tab.
    pub fn current_tab(self, tab: Tab) -> (ui: Self)
        ensures
            ui == (VizierUi { current_tab: tab, ..self }),
    {
        VizierUi { current_tab: tab, ..self }
    }

    /// Sets the focused panel.
    pub fn focus(self, focus: Focus) -> (ui: Self)
        ensures
            ui == (VizierUi { focus: focus, ..self }),
    {
        VizierUi { focus: focus, ..self }
    }

    /// Sets the item shown in the inspector.
    pub fn selected_item(self, item: Option<&'a AnalyzedItem>) -> (ui: Self)
        ensures
            ui == (VizierUi { selected_item: item, ..self }),
    {
        VizierUi { selected_item: item, ..self }
    }

    /// Sets the selected completion.
    pub fn completion_selected(self, index: usize) -> (ui: Self)
        ensures
            ui == (VizierUi { completion_selected: index, ..self }),
    {
        VizierUi { completion_selected: index, ..self }
    }

    /// Sets whether the completion dropdown is shown.
    pub fn show_completion(self, show: bool) -> (ui: Self)
        ensures
            ui == (VizierUi { show_completion: show, ..self }),
    {
        VizierUi { show_completion: show, ..self }
    }

    /// Sets whether the help overlay is shown.
    pub fn show_help(self, show: bool) -> (ui: Self)
        ensures
            ui == (VizierUi { show_help: show, ..self }),
    {
        VizierUi { show_help: show, ..self }
    }

    /// Sets whether the settings overlay is shown.
    pub fn show_settings(self, show: bool) -> (ui: Self)
        ensures
            ui == (VizierUi { show_settings: show, ..self }),
    {
        VizierUi { show_settings: show, ..self }
    }

    /// Sets the status line message.
    pub fn status_message(self, msg: &'a str) -> (ui: Self)
        ensures
            ui == (VizierUi { status_message: msg, ..self }),
    {
        VizierUi { status_message: msg, ..self }
    }

    /// Sets the inspector scroll offset.
    pub fn inspector_scroll(self, scroll: usize) -> (ui: Self)
        ensures
            ui == (VizierUi { inspector_scroll: scroll, ..self }),
    {
        VizierUi { inspector_scroll: scroll, ..self }
    }

    /// Sets whether the Copilot chat panel is shown.
    pub fn show_copilot_chat(self, show: bool) -> (ui: Self)
        ensures
            ui == (VizierUi { show_copilot_chat: show, ..self }),
    {
        VizierUi { show_copilot_chat: show, ..self }
    }

    /// Sets the chat messages as (role, content) pairs.
    pub fn copilot_chat_messages(self, messages: &'a [(String, String)]) -> (ui: Self)
        ensures
            ui == (VizierUi { copilot_chat_messages: messages, ..self }),
    {
        VizierUi { copilot_chat_messages: messages, ..self }
    }

    /// Sets the chat input.
    pub fn copilot_chat_input(self, input: &'a str) -> (ui: Self)
        ensures
            ui == (VizierUi { copilot_chat_input: input, ..self }),
    {
        VizierUi { copilot_chat_input: input, ..self }
    }

    /// Sets whether a chat answer is awaited.
    pub fn copilot_chat_loading(self, loading: bool) -> (ui: Self)
        ensures
            ui == (VizierUi { copilot_chat_loading: loading, ..self }),
    {
        VizierUi { copilot_chat_loading: loading, ..self }
    }

    /// Sets the chat scroll offset.
    pub fn copilot_chat_scroll(self, scroll: usize) -> (ui: Self)
        ensures
            ui == (VizierUi { copilot_chat_scroll: scroll, ..self }),
    {
        VizierUi { copilot_chat_scroll: scroll, ..self }
    }

    /// Sets the animation state.
    pub fn animation_state(self, animation: &'a Anim) -> (ui: Self)
        ensures
            ui == (VizierUi { animation: Some(animation), ..self }),
    {
        VizierUi { animation: Some(animation), ..self }
    }
}

/// The placeholder of the search bar on a tab (inside an installed crate on the
/// Crates tab when `browsing`).
pub open spec fn placeholder_for(tab: Tab, browsing: bool) -> Seq<char> {
    match tab {
        Tab::Types => "Search types... (struct, enum, type)"@,
        Tab::Functions => "Search functions..."@,
        Tab::Modules => "Search modules..."@,
        Tab::Crates => if browsing {
            "Filter items... (e.g., de::Deserialize)"@
        } else {
            "Search crates... (filter by name)"@
        },
    }
}

impl<'a, Th, Anim> VizierUi<'a, Th, Anim> {
    /// The placeholder of the search bar for the current tab.
    pub fn search_placeholder(&self) -> (p: &'static str)
        ensures
            p@ == placeholder_for(self.current_tab, self.selected_installed_crate is Some),
    {
        match self.current_tab {
            Tab::Types => "Search types... (struct, enum, type)",
            Tab::Functions => "Search functions...",
            Tab::Modules => "Search modules...",
            Tab::Crates => if self.selected_installed_crate.is_some() {
                "Filter items... (e.g., de::Deserialize)"
            } else {
                "Search crates... (filter by name)"
            },
        }
    }
}

} // verus!
