//! Application state and the way user input and background results change it.
//! Work that touches the outside world (reading files, fetching documentation,
//! running Copilot, scanning the crate registry) is done by the caller; the methods
//! here say what to do and take the results back.

use vstd::hash_map::StringHashMap;
use vstd::prelude::*;

use crate::analyzer::{AnalyzedItem, CrateInfo, InstalledCrate};
use crate::config::settings::UiSettings;
use crate::config::Settings;
use crate::crates_io::{opt_view, CrateDocInfo};
use crate::ui::app::{Focus, Tab};
use crate::ui::search::{filter_candidates, filter_candidates_of, CandidateKind, CompletionCandidate};
use crate::text::{chars_of, first_line, first_line_chars, lowercase, string_of};
use crate::analyzer::ItemKind;
use vstd::utf8::{decode_utf8, encode_utf8, encode_utf8_decode_utf8, is_char_boundary};
use super::filters::{
    candidates_for_tab, dependency_list, filter_candidates_by_tab, filter_dependencies,
    filter_installed_items, filter_items_by_tab, lowered_chars, matching_installed_items,
    matching_items,
};

verus! {

/// Most crates whose documentation is kept in the cache.
pub const CRATE_DOCS_CACHE_MAX: usize = 50;

/// The selected row of a list, if any.
#[derive(Debug, Clone, Copy)]
pub struct ListState {
    pub selected: Option<usize>,
}

impl ListState {
    /// A list state without a selection.
    pub fn new() -> (s: Self)
        ensures
            s.selected is None,
    {
        ListState { selected: None }
    }

    /// The selected row.
    pub fn selected(&self) -> (r: Option<usize>)
        ensures
            r == self.selected,
    {
        self.selected
    }

    /// Selects a row, or nothing.
    pub fn select(&mut self, index: Option<usize>)
        ensures
            final(self).selected == index,
    {
        self.selected = index;
    }
}

/// The documentation fetched per crate name, at most [`CRATE_DOCS_CACHE_MAX`] crates.
pub struct DocCache {
    entries: Vec<(String, CrateDocInfo)>,
}

/// The map of the entries, later entries taking precedence.
pub open spec fn entries_map(es: Seq<(String, CrateDocInfo)>) -> Map<Seq<char>, CrateDocInfo>
    decreases es.len(),
{
    if es.len() == 0 {
        Map::empty()
    } else {
        entries_map(es.drop_last()).insert(es.last().0@, es.last().1)
    }
}

/// No name occurs twice among the entries.
pub open spec fn distinct_names(es: Seq<(String, CrateDocInfo)>) -> bool {
    forall|i: int, j: int| 0 <= i < j < es.len() ==> #[trigger] es[i].0@ != #[trigger] es[j].0@
}

proof fn lemma_entries_map(es: Seq<(String, CrateDocInfo)>)
    requires
        distinct_names(es),
    ensures
        entries_map(es).dom().len() == es.len(),
        entries_map(es).dom().finite(),
        forall|k: Seq<char>|
            #[trigger] entries_map(es).contains_key(k) <==> exists|i: int|
                0 <= i < es.len() && #[trigger] es[i].0@ == k,
        forall|i: int| 0 <= i < es.len() ==> #[trigger] entries_map(es)[es[i].0@] == es[i].1,
    decreases es.len(),
{
    if es.len() > 0 {
        let prev = es.drop_last();
        assert(distinct_names(prev)) by {
            assert forall|i: int, j: int| 0 <= i < j < prev.len() implies #[trigger] prev[i].0@
                != #[trigger] prev[j].0@ by {
                assert(prev[i] == es[i] && prev[j] == es[j]);
            }
        }
        lemma_entries_map(prev);
        let last = es.last();
        assert(!entries_map(prev).contains_key(last.0@)) by {
            if entries_map(prev).contains_key(last.0@) {
                let i = choose|i: int| 0 <= i < prev.len() && #[trigger] prev[i].0@ == last.0@;
                assert(es[i] == prev[i]);
                assert(es[es.len() - 1] == last);
            }
        }
        assert forall|k: Seq<char>| #[trigger] entries_map(es).contains_key(k) <==> exists|i: int|
            0 <= i < es.len() && #[trigger] es[i].0@ == k by {
            if entries_map(es).contains_key(k) && k != last.0@ {
                let i = choose|i: int| 0 <= i < prev.len() && #[trigger] prev[i].0@ == k;
                assert(es[i] == prev[i]);
            }
            if exists|i: int| 0 <= i < es.len() && #[trigger] es[i].0@ == k {
                let i = choose|i: int| 0 <= i < es.len() && #[trigger] es[i].0@ == k;
                if i < es.len() - 1 {
                    assert(es[i] == prev[i]);
                }
            }
        }
        assert forall|i: int| 0 <= i < es.len() implies #[trigger] entries_map(es)[es[i].0@]
            == es[i].1 by {
            if i < es.len() - 1 {
                assert(es[i] == prev[i]);
                assert(es[i].0@ != last.0@);
            }
        }
    }
}

impl DocCache {
    #[verifier::type_invariant]
    spec fn well_formed(self) -> bool {
        &&& distinct_names(self.entries@)
        &&& self.entries@.len() <= CRATE_DOCS_CACHE_MAX
    }

    /// The cached documentation by crate name.
    pub closed spec fn view(self) -> Map<Seq<char>, CrateDocInfo> {
        entries_map(self.entries@)
    }

    /// An empty cache.
    pub fn new() -> (c: Self)
        ensures
            c.view() == Map::<Seq<char>, CrateDocInfo>::empty(),
    {
        DocCache { entries: Vec::new() }
    }

    /// The number of cached crates; never more than [`CRATE_DOCS_CACHE_MAX`].
    pub fn len(&self) -> (n: usize)
        ensures
            n == self.view().len(),
            n <= CRATE_DOCS_CACHE_MAX,
    {
        proof {
            use_type_invariant(self);
            lemma_entries_map(self.entries@);
        }
        self.entries.len()
    }

    /// Whether documentation for `name` is cached.
    pub fn contains_key(&self, name: &str) -> (b: bool)
        ensures
            b == self.view().contains_key(name@),
    {
        proof {
            use_type_invariant(self);
            lemma_entries_map(self.entries@);
        }
        position_of(&self.entries, name).is_some()
    }

    /// The cached documentation for `name`.
    pub fn get(&self, name: &str) -> (r: Option<&CrateDocInfo>)
        ensures
            match r {
                Some(d) => self.view().contains_key(name@) && *d == self.view()[name@],
                None => !self.view().contains_key(name@),
            },
    {
        proof {
            use_type_invariant(self);
            lemma_entries_map(self.entries@);
        }
        match position_of(&self.entries, name) {
            Some(i) => Some(&self.entries[i].1),
            None => None,
        }
    }

    /// Caches `info` for `name`. When the cache is full, the entry cached first is
    /// dropped beforehand, so the cache never holds more than
    /// [`CRATE_DOCS_CACHE_MAX`] crates.
    pub fn insert(&mut self, name: String, info: CrateDocInfo)
        ensures
            old(self).view().len() < CRATE_DOCS_CACHE_MAX ==> final(self).view() == old(self).view().insert(
                name@,
                info,
            ),
            old(self).view().len() >= CRATE_DOCS_CACHE_MAX ==> exists|evicted: Seq<char>|
                old(self).view().contains_key(evicted) && final(self).view() == old(self).view().remove(
                    evicted,
                ).insert(name@, info),
            final(self).view().len() <= CRATE_DOCS_CACHE_MAX,
    {
        proof {
            use_type_invariant(&*self);
            lemma_entries_map(self.entries@);
        }
        let ghost before = self.entries@;
        let mut entries: Vec<(String, CrateDocInfo)> = Vec::new();
        std::mem::swap(&mut entries, &mut self.entries);
        let ghost mut evicted: Seq<char> = Seq::empty();
        if entries.len() >= CRATE_DOCS_CACHE_MAX {
            proof {
                evicted = before[0].0@;
                lemma_remove_first(before);
            }
            entries.remove(0);
            proof {
                assert(entries@ =~= before.drop_first());
            }
        }
        let ghost kept = entries@;
        proof {
            lemma_entries_map(kept);
        }
        match position_of(&entries, name.as_str()) {
            Some(k) => {
                proof {
                    lemma_replace_entry(kept, k as int, name, info);
                }
                entries.set(k, (name, info));
            },
            None => {
                proof {
                    lemma_push_entry(kept, name, info);
                }
                entries.push((name, info));
            },
        }
        proof {
            lemma_entries_map(entries@);
        }
        self.entries = entries;
    }
}

fn position_of(entries: &Vec<(String, CrateDocInfo)>, name: &str) -> (r: Option<usize>)
    ensures
        r matches Some(i) ==> i < entries@.len() && entries@[i as int].0@ == name@,
        r is None ==> forall|i: int| 0 <= i < entries@.len() ==> #[trigger] entries@[i].0@ != name@,
{
    let target = String::from_str(name);
    let mut i: usize = 0;
    while i < entries.len()
        invariant
            i <= entries@.len(),
            target@ == name@,
            forall|j: int| 0 <= j < i ==> #[trigger] entries@[j].0@ != name@,
        decreases entries@.len() - i,
    {
        if entries[i].0 == target {
            return Some(i);
        }
        i = i + 1;
    }
    None
}

proof fn lemma_remove_first(es: Seq<(String, CrateDocInfo)>)
    requires
        distinct_names(es),
        es.len() > 0,
    ensures
        distinct_names(es.drop_first()),
        entries_map(es.drop_first()) == entries_map(es).remove(es[0].0@),
        entries_map(es).contains_key(es[0].0@),
{
    let rest = es.drop_first();
    assert forall|i: int, j: int| 0 <= i < j < rest.len() implies #[trigger] rest[i].0@
        != #[trigger] rest[j].0@ by {
        assert(rest[i] == es[i + 1] && rest[j] == es[j + 1]);
    }
    lemma_entries_map(es);
    lemma_entries_map(rest);
    let a = entries_map(rest);
    let b = entries_map(es).remove(es[0].0@);
    assert forall|k: Seq<char>| a.contains_key(k) <==> b.contains_key(k) by {
        if a.contains_key(k) {
            let i = choose|i: int| 0 <= i < rest.len() && #[trigger] rest[i].0@ == k;
            assert(es[i + 1] == rest[i]);
            assert(es[i + 1].0@ != es[0].0@);
        }
        if b.contains_key(k) {
            let i = choose|i: int| 0 <= i < es.len() && #[trigger] es[i].0@ == k;
            assert(i != 0);
            assert(rest[i - 1] == es[i]);
        }
    }
    assert forall|k: Seq<char>| #[trigger] a.contains_key(k) implies a[k] == b[k] by {
        let i = choose|i: int| 0 <= i < rest.len() && #[trigger] rest[i].0@ == k;
        assert(es[i + 1] == rest[i]);
    }
    assert(a =~= b);
    assert(es[0].0@ == es[0].0@);
}

proof fn lemma_replace_entry(es: Seq<(String, CrateDocInfo)>, k: int, name: String, info: CrateDocInfo)
    requires
        distinct_names(es),
        0 <= k < es.len(),
        es[k].0@ == name@,
    ensures
        distinct_names(es.update(k, (name, info))),
        entries_map(es.update(k, (name, info))) == entries_map(es).insert(name@, info),
{
    let after = es.update(k, (name, info));
    assert forall|i: int, j: int| 0 <= i < j < after.len() implies #[trigger] after[i].0@
        != #[trigger] after[j].0@ by {
        assert(after[i].0@ == es[i].0@ && after[j].0@ == es[j].0@);
    }
    lemma_entries_map(es);
    lemma_entries_map(after);
    let a = entries_map(after);
    let b = entries_map(es).insert(name@, info);
    assert forall|key: Seq<char>| a.contains_key(key) <==> b.contains_key(key) by {
        if a.contains_key(key) {
            let i = choose|i: int| 0 <= i < after.len() && #[trigger] after[i].0@ == key;
            assert(es[i].0@ == key);
        }
        if b.contains_key(key) && key != name@ {
            let i = choose|i: int| 0 <= i < es.len() && #[trigger] es[i].0@ == key;
            assert(after[i].0@ == key);
        }
        if key == name@ {
            assert(after[k].0@ == key);
        }
    }
    assert forall|key: Seq<char>| #[trigger] a.contains_key(key) implies a[key] == b[key] by {
        let i = choose|i: int| 0 <= i < after.len() && #[trigger] after[i].0@ == key;
        if i != k {
            assert(after[i] == es[i]);
        }
    }
    assert(a =~= b);
}

proof fn lemma_push_entry(es: Seq<(String, CrateDocInfo)>, name: String, info: CrateDocInfo)
    requires
        distinct_names(es),
        forall|i: int| 0 <= i < es.len() ==> #[trigger] es[i].0@ != name@,
    ensures
        distinct_names(es.push((name, info))),
        entries_map(es.push((name, info))) == entries_map(es).insert(name@, info),
{
    let after = es.push((name, info));
    assert forall|i: int, j: int| 0 <= i < j < after.len() implies #[trigger] after[i].0@
        != #[trigger] after[j].0@ by {
        assert(after[i] == es[i]);
        if j < es.len() {
            assert(after[j] == es[j]);
        }
    }
    assert(after.drop_last() =~= es);
}

/// Main application state.
pub struct App {
    pub items: Vec<AnalyzedItem>,
    pub filtered_items: Vec<usize>,
    pub crate_info: Option<CrateInfo>,
    pub dependency_tree: Vec<(String, usize)>,
    /// Positions in `dependency_tree` listed on the Crates tab (filtered by the search).
    pub filtered_dependency_indices: Vec<usize>,
    pub installed_crates_list: Vec<String>,
    pub selected_installed_crate: Option<InstalledCrate>,
    pub installed_crate_items: Vec<AnalyzedItem>,
    pub installed_crate_filtered: Vec<usize>,
    pub search_input: String,
    pub current_tab: Tab,
    pub focus: Focus,
    pub list_state: ListState,
    pub completion_selected: usize,
    pub show_completion: bool,
    pub show_help: bool,
    pub show_settings: bool,
    pub status_message: String,
    pub candidates: Vec<CompletionCandidate>,
    pub filtered_candidates: Vec<CompletionCandidate>,
    pub settings: Settings,
    pub should_quit: bool,
    pub project_path: Option<String>,
    pub copilot_chat_open: bool,
    /// (role, content) pairs, the role being `user` or `assistant`.
    pub copilot_chat_messages: Vec<(String, String)>,
    pub copilot_chat_input: String,
    pub copilot_chat_loading: bool,
    pub copilot_chat_scroll: usize,
    /// Size of the `target/` directory in bytes, if known.
    pub target_size_bytes: Option<u64>,
    pub crate_docs_cache: DocCache,
    pub crate_docs_loading: Option<String>,
    pub crate_docs_failed: StringHashMap<()>,
}

/// The selection after a list was filtered to `len` rows: a selection past the end
/// moves to the first row.
pub open spec fn selection_within(sel: Option<usize>, len: nat) -> Option<usize> {
    match sel {
        Some(s) => if s >= len {
            Some(0usize)
        } else {
            sel
        },
        None => None,
    }
}

/// Whether the Crates tab shows the items of an installed crate.
pub open spec fn browsing_installed_crate(app: App) -> bool {
    app.current_tab == Tab::Crates && app.selected_installed_crate is Some
}

/// The number of rows of the current list. The Crates tab's dependency list always
/// has at least one row (a placeholder when it is empty).
pub open spec fn current_list_len(app: App) -> nat {
    if app.current_tab == Tab::Crates {
        if app.selected_installed_crate is Some {
            app.installed_crate_filtered@.len()
        } else {
            let n = app.filtered_dependency_indices@.len();
            if app.dependency_tree@.len() == 0 || n == 0 {
                1
            } else {
                n
            }
        }
    } else {
        app.filtered_items@.len()
    }
}

/// The row after `sel` in a list of `len` rows, wrapping around; the first row when
/// nothing is selected.
pub open spec fn next_row(sel: Option<usize>, len: nat) -> Option<usize> {
    match sel {
        Some(i) => Some(((i + 1) % (len as int)) as usize),
        None => Some(0usize),
    }
}

/// The row before `sel` in a list of `len` rows, wrapping around; the first row when
/// nothing is selected.
pub open spec fn prev_row(sel: Option<usize>, len: nat) -> Option<usize> {
    match sel {
        Some(i) => if i == 0 {
            Some((len - 1) as usize)
        } else {
            Some((i - 1) as usize)
        },
        None => Some(0usize),
    }
}

/// The state after selecting the next row of the current list (nothing changes for
/// an empty list).
pub open spec fn moved_down(old: App, new: App) -> bool {
    let len = current_list_len(old);
    &&& len == 0 ==> new == old
    &&& len > 0 ==> new == (App {
        list_state: ListState { selected: next_row(old.list_state.selected, len) },
        ..old
    })
}

/// The state after selecting the previous row of the current list (nothing changes
/// for an empty list).
pub open spec fn moved_up(old: App, new: App) -> bool {
    let len = current_list_len(old);
    &&& len == 0 ==> new == old
    &&& len > 0 ==> new == (App {
        list_state: ListState { selected: prev_row(old.list_state.selected, len) },
        ..old
    })
}

/// The state after selecting the next completion, wrapping around.
pub open spec fn completion_moved_down(old: App, new: App) -> bool {
    let n = old.filtered_candidates@.len();
    &&& n == 0 ==> new == old
    &&& n > 0 ==> new == (App {
        completion_selected: ((old.completion_selected + 1) % (n as int)) as usize,
        ..old
    })
}

/// The state after selecting the previous completion, wrapping around.
pub open spec fn completion_moved_up(old: App, new: App) -> bool {
    let n = old.filtered_candidates@.len();
    &&& n == 0 ==> new == old
    &&& n > 0 ==> new == (App {
        completion_selected: if old.completion_selected == 0 {
            (n - 1) as usize
        } else {
            (old.completion_selected - 1) as usize
        },
        ..old
    })
}

/// The state after leaving the installed crate being browsed: none selected, its
/// items dropped, the first row selected.
pub open spec fn installed_crate_cleared(old: App, new: App) -> bool {
    &&& new == (App {
        selected_installed_crate: None,
        installed_crate_items: new.installed_crate_items,
        installed_crate_filtered: new.installed_crate_filtered,
        list_state: ListState { selected: Some(0usize) },
        ..old
    })
    &&& new.installed_crate_items@.len() == 0
    &&& new.installed_crate_filtered@.len() == 0
}

/// The name of the crate selected on the Crates tab's dependency list, if any.
pub open spec fn selected_dependency(app: App) -> Option<Seq<char>> {
    if app.current_tab != Tab::Crates || app.selected_installed_crate is Some
        || app.dependency_tree@.len() == 0 {
        None
    } else {
        let row = match app.list_state.selected {
            Some(i) => i as int,
            None => 0,
        };
        if row < app.filtered_dependency_indices@.len() && app.filtered_dependency_indices@[row]
            < app.dependency_tree@.len() {
            Some(app.dependency_tree@[app.filtered_dependency_indices@[row] as int].0@)
        } else {
            None
        }
    }
}

/// The crate to open in a browser: the installed crate being browsed, or the one
/// selected on the dependency list; none outside the Crates tab.
pub open spec fn crate_for_display(app: App) -> Option<Seq<char>> {
    if app.current_tab != Tab::Crates {
        None
    } else {
        match app.selected_installed_crate {
            Some(c) => Some(c.name@),
            None => selected_dependency(app),
        }
    }
}

/// The root crate's name: the first entry of the dependency tree.
pub open spec fn dependency_root(app: App) -> Option<Seq<char>> {
    if app.dependency_tree@.len() > 0 {
        Some(app.dependency_tree@[0].0@)
    } else {
        None
    }
}

/// The names of the project's dependencies (tree entries below the root).
pub open spec fn project_dependency_names(tree: Seq<(String, usize)>) -> Set<Seq<char>> {
    Set::new(|n: Seq<char>| exists|i: int| 0 <= i < tree.len() && tree[i].1 > 0 && #[trigger] tree[i].0@ == n)
}

/// The installed crates that are project dependencies, in order.
pub open spec fn installed_in(names: Seq<String>, deps: Set<Seq<char>>) -> Seq<String>
    decreases names.len(),
{
    if names.len() == 0 {
        Seq::empty()
    } else {
        let rest = installed_in(names.drop_last(), deps);
        if deps.contains(names.last()@) {
            rest.push(names.last())
        } else {
            rest
        }
    }
}

/// The installed crates shown on the Crates tab: with a Cargo project (a non-empty
/// dependency tree), those that are among the project's dependencies, in their
/// order; without one, all of them.
pub open spec fn installed_display_list(app: App) -> Seq<String> {
    if app.dependency_tree@.len() == 0 {
        app.installed_crates_list@
    } else {
        installed_in(app.installed_crates_list@, project_dependency_names(app.dependency_tree@))
    }
}

/// The state the application starts in: nothing analyzed, default settings, the
/// first tab with the search bar focused, status `Ready`.
pub open spec fn is_initial(app: App) -> bool {
    &&& app.items@.len() == 0
    &&& app.filtered_items@.len() == 0
    &&& app.crate_info is None
    &&& app.dependency_tree@.len() == 0
    &&& app.filtered_dependency_indices@.len() == 0
    &&& app.installed_crates_list@.len() == 0
    &&& app.selected_installed_crate is None
    &&& app.installed_crate_items@.len() == 0
    &&& app.installed_crate_filtered@.len() == 0
    &&& app.search_input@.len() == 0
    &&& app.current_tab == Tab::Types
    &&& app.focus == Focus::Search
    &&& app.list_state.selected is None
    &&& app.completion_selected == 0
    &&& !app.show_completion
    &&& !app.show_help
    &&& !app.show_settings
    &&& app.status_message@ == "Ready"@
    &&& app.candidates@.len() == 0
    &&& app.filtered_candidates@.len() == 0
    &&& crate::config::settings::is_default_settings(app.settings)
    &&& !app.should_quit
    &&& app.project_path is None
    &&& !app.copilot_chat_open
    &&& app.copilot_chat_messages@.len() == 0
    &&& app.copilot_chat_input@.len() == 0
    &&& !app.copilot_chat_loading
    &&& app.copilot_chat_scroll == 0
    &&& app.target_size_bytes is None
    &&& app.crate_docs_cache.view() == Map::<Seq<char>, CrateDocInfo>::empty()
    &&& app.crate_docs_loading is None
    &&& app.crate_docs_failed@ == Map::<Seq<char>, ()>::empty()
}

impl App {
    /// A new application state: nothing analyzed, default settings, the first tab,
    /// status `Ready`.
    pub fn new() -> (app: Self)
        ensures
            is_initial(app),
    {
        App {
            items: Vec::new(),
            filtered_items: Vec::new(),
            crate_info: None,
            dependency_tree: Vec::new(),
            filtered_dependency_indices: Vec::new(),
            installed_crates_list: Vec::new(),
            selected_installed_crate: None,
            installed_crate_items: Vec::new(),
            installed_crate_filtered: Vec::new(),
            search_input: String::new(),
            current_tab: Tab::default(),
            focus: Focus::default(),
            list_state: ListState::new(),
            completion_selected: 0,
            show_completion: false,
            show_help: false,
            show_settings: false,
            status_message: String::from_str("Ready"),
            candidates: Vec::new(),
            filtered_candidates: Vec::new(),
            settings: Settings::default(),
            should_quit: false,
            project_path: None,
            copilot_chat_open: false,
            copilot_chat_messages: Vec::new(),
            copilot_chat_input: String::new(),
            copilot_chat_loading: false,
            copilot_chat_scroll: 0,
            target_size_bytes: None,
            crate_docs_cache: DocCache::new(),
            crate_docs_loading: None,
            crate_docs_failed: StringHashMap::new(),
        }
    }

    /// Shows or hides the settings overlay.
    pub fn toggle_settings(&mut self)
        ensures
            final(self).show_settings == !old(self).show_settings,
            *final(self) == (App { show_settings: final(self).show_settings, ..*old(self) }),
    {
        self.show_settings = !self.show_settings;
    }

    /// Records the colour theme `name` in the settings and reports it by its
    /// `display_name` (`Theme: ...`).
    pub fn set_theme(&mut self, name: &str, display_name: &str)
        ensures
            *final(self) == (App {
                settings: Settings {
                    ui: UiSettings { theme: final(self).settings.ui.theme, ..old(self).settings.ui },
                    ..old(self).settings
                },
                status_message: final(self).status_message,
                ..*old(self)
            }),
            final(self).settings.ui.theme@ == name@,
            final(self).status_message@ == "Theme: "@ + display_name@,
    {
        self.settings.ui.theme = String::from_str(name);
        let mut status = String::from_str("Theme: ");
        status.append(display_name);
        self.status_message = status;
    }

    /// Shows or hides the help overlay.
    pub fn toggle_help(&mut self)
        ensures
            final(self).show_help == !old(self).show_help,
            *final(self) == (App { show_help: final(self).show_help, ..*old(self) }),
    {
        self.show_help = !self.show_help;
    }

    /// The number of rows of the current list.
    pub fn get_current_list_len(&self) -> (n: usize)
        ensures
            n == current_list_len(*self),
    {
        if self.current_tab == Tab::Crates {
            if self.selected_installed_crate.is_some() {
                self.installed_crate_filtered.len()
            } else {
                let n = self.filtered_dependency_indices.len();
                if self.dependency_tree.len() == 0 || n == 0 {
                    1
                } else {
                    n
                }
            }
        } else {
            self.filtered_items.len()
        }
    }

    /// Selects the next row, wrapping around (the first row when none is selected).
    pub fn next_item(&mut self)
        requires
            old(self).list_state.selected matches Some(i) ==> i < usize::MAX,
        ensures
            moved_down(*old(self), *final(self)),
    {
        let len = self.get_current_list_len();
        if len == 0 {
            return;
        }
        let i = match self.list_state.selected() {
            Some(i) => (i + 1) % len,
            None => 0,
        };
        self.list_state.select(Some(i));
    }

    /// Selects the previous row, wrapping around (the first row when none is selected).
    pub fn prev_item(&mut self)
        ensures
            moved_up(*old(self), *final(self)),
    {
        let len = self.get_current_list_len();
        if len == 0 {
            return;
        }
        let i = match self.list_state.selected() {
            Some(i) => if i == 0 {
                len - 1
            } else {
                i - 1
            },
            None => 0,
        };
        self.list_state.select(Some(i));
    }

    /// Moves focus to the next panel.
    pub fn next_focus(&mut self)
        ensures
            *final(self) == (App {
                focus: crate::ui::app::types::focus_after(old(self).focus, old(self).copilot_chat_open),
                ..*old(self)
            }),
    {
        self.focus = self.focus.next(self.copilot_chat_open);
    }

    /// Moves focus to the previous panel.
    pub fn prev_focus(&mut self)
        ensures
            *final(self) == (App {
                focus: crate::ui::app::types::focus_before(old(self).focus, old(self).copilot_chat_open),
                ..*old(self)
            }),
    {
        self.focus = self.focus.prev(self.copilot_chat_open);
    }

    /// Selects the next completion, wrapping around; nothing happens without completions.
    pub fn next_completion(&mut self)
        requires
            old(self).completion_selected < usize::MAX,
        ensures
            completion_moved_down(*old(self), *final(self)),
    {
        if self.filtered_candidates.len() > 0 {
            self.completion_selected = (self.completion_selected + 1) % self.filtered_candidates.len();
        }
    }

    /// Selects the previous completion, wrapping around; nothing happens without
    /// completions.
    pub fn prev_completion(&mut self)
        ensures
            completion_moved_up(*old(self), *final(self)),
    {
        if self.filtered_candidates.len() > 0 {
            self.completion_selected = if self.completion_selected == 0 {
                self.filtered_candidates.len() - 1
            } else {
                self.completion_selected - 1
            };
        }
    }

    /// The name of the crate selected on the Crates tab's dependency list: none on
    /// another tab, inside an installed crate, or without a dependency tree.
    pub fn selected_dependency_name(&self) -> (r: Option<String>)
        ensures
            opt_view(r) == selected_dependency(*self),
    {
        if self.current_tab != Tab::Crates || self.selected_installed_crate.is_some()
            || self.dependency_tree.len() == 0 {
            return None;
        }
        let row = match self.list_state.selected() {
            Some(i) => i,
            None => 0,
        };
        if row < self.filtered_dependency_indices.len() {
            let tree_idx = self.filtered_dependency_indices[row];
            if tree_idx < self.dependency_tree.len() {
                return Some(self.dependency_tree[tree_idx].0.clone());
            }
        }
        None
    }

    /// The root crate's name: the first entry of the dependency tree.
    pub fn dependency_root_name(&self) -> (r: Option<&str>)
        ensures
            match r {
                Some(s) => dependency_root(*self) == Some(s@),
                None => dependency_root(*self) is None,
            },
    {
        if self.dependency_tree.len() > 0 {
            Some(self.dependency_tree[0].0.as_str())
        } else {
            None
        }
    }

    /// The crate to open in a browser: the installed crate being browsed, or the one
    /// selected on the dependency list; none outside the Crates tab.
    pub fn selected_crate_name_for_display(&self) -> (r: Option<String>)
        ensures
            opt_view(r) == crate_for_display(*self),
    {
        if self.current_tab != Tab::Crates {
            return None;
        }
        match &self.selected_installed_crate {
            Some(c) => Some(c.name.clone()),
            None => self.selected_dependency_name(),
        }
    }

    /// The installed crates shown on the Crates tab: with a Cargo project (a non-empty
    /// dependency tree), those among the project's dependencies; otherwise all of them.
    pub fn installed_crates_display_list(&self) -> (r: Vec<String>)
        ensures
            r@ == installed_display_list(*self),
    {
        if self.dependency_tree.len() == 0 {
            return crate::analyzer::dependency::clone_strings(&self.installed_crates_list);
        }
        let ghost deps = project_dependency_names(self.dependency_tree@);
        let mut dep_names: Vec<String> = Vec::new();
        let mut i: usize = 0;
        while i < self.dependency_tree.len()
            invariant
                i <= self.dependency_tree@.len(),
                deps == project_dependency_names(self.dependency_tree@),
                forall|n: Seq<char>|
                    views_contain(dep_names@, n) <==> exists|k: int|
                        0 <= k < i && self.dependency_tree@[k].1 > 0 && #[trigger] self.dependency_tree@[k].0@
                            == n,
            decreases self.dependency_tree@.len() - i,
        {
            let ghost before = dep_names@;
            if self.dependency_tree[i].1 > 0 {
                dep_names.push(self.dependency_tree[i].0.clone());
            }
            proof {
                let tree = self.dependency_tree@;
                assert forall|n: Seq<char>| views_contain(dep_names@, n) <==> exists|k: int|
                    0 <= k < i + 1 && tree[k].1 > 0 && #[trigger] tree[k].0@ == n by {
                    if views_contain(dep_names@, n) {
                        let j = choose|j: int| 0 <= j < dep_names@.len() && #[trigger] dep_names@[j]@ == n;
                        if j < before.len() {
                            assert(before[j] == dep_names@[j]);
                            assert(views_contain(before, n));
                        } else {
                            assert(tree[i as int].0@ == n && tree[i as int].1 > 0);
                        }
                    }
                    if exists|k: int| 0 <= k < i + 1 && tree[k].1 > 0 && #[trigger] tree[k].0@ == n {
                        let k = choose|k: int| 0 <= k < i + 1 && tree[k].1 > 0 && #[trigger] tree[k].0@ == n;
                        if k < i {
                            assert(views_contain(before, n));
                            let j = choose|j: int| 0 <= j < before.len() && #[trigger] before[j]@ == n;
                            assert(dep_names@[j] == before[j]);
                        } else {
                            assert(dep_names@[before.len() as int]@ == n);
                        }
                    }
                }
            }
            i = i + 1;
        }
        proof {
            assert forall|n: Seq<char>| views_contain(dep_names@, n) <==> deps.contains(n) by {}
        }
        let mut r: Vec<String> = Vec::new();
        let mut j: usize = 0;
        while j < self.installed_crates_list.len()
            invariant
                j <= self.installed_crates_list@.len(),
                forall|n: Seq<char>| views_contain(dep_names@, n) <==> deps.contains(n),
                r@ == installed_in(self.installed_crates_list@.take(j as int), deps),
            decreases self.installed_crates_list@.len() - j,
        {
            proof {
                let t = self.installed_crates_list@.take(j + 1);
                assert(t.drop_last() =~= self.installed_crates_list@.take(j as int));
                assert(t.last() == self.installed_crates_list@[j as int]);
            }
            let name = &self.installed_crates_list[j];
            if contains_name(&dep_names, name) {
                r.push(name.clone());
            }
            j = j + 1;
        }
        proof {
            assert(self.installed_crates_list@.take(self.installed_crates_list@.len() as int)
                =~= self.installed_crates_list@);
        }
        r
    }

    /// Leaves the installed crate being browsed and goes back to the crate list.
    pub fn clear_installed_crate(&mut self)
        ensures
            installed_crate_cleared(*old(self), *final(self)),
    {
        self.selected_installed_crate = None;
        self.installed_crate_items.clear();
        self.installed_crate_filtered.clear();
        self.list_state.select(Some(0));
    }
}

/// The state after filtering the installed crate's items: when a crate is being
/// browsed its items are filtered by the lower-cased search input; a selection past
/// the end of the current list moves to the first row.
pub open spec fn installed_filter_result(old: App, new: App) -> bool {
    let q = lowercase(old.search_input@);
    &&& new == (App {
        installed_crate_filtered: new.installed_crate_filtered,
        list_state: new.list_state,
        ..old
    })
    &&& old.selected_installed_crate is Some ==> new.installed_crate_filtered@
        == matching_installed_items(old.installed_crate_items@, q)
    &&& old.selected_installed_crate is None ==> new.installed_crate_filtered
        == old.installed_crate_filtered
    &&& new.list_state.selected == selection_within(
        old.list_state.selected,
        current_list_len(App { installed_crate_filtered: new.installed_crate_filtered, ..old }),
    )
}

/// The state after filtering for the search input and the current tab: the items of
/// an installed crate being browsed, the dependency list on the Crates tab (with no
/// completions), or the tab's items and completions on the other tabs. A selection
/// past the end of the new list moves to the first row.
pub open spec fn filter_result(old: App, new: App) -> bool {
    let q = lowercase(old.search_input@);
    if browsing_installed_crate(old) {
        installed_filter_result(old, new)
    } else if old.current_tab == Tab::Crates {
        &&& new == (App {
            filtered_dependency_indices: new.filtered_dependency_indices,
            list_state: new.list_state,
            filtered_candidates: new.filtered_candidates,
            completion_selected: 0,
            ..old
        })
        &&& new.filtered_dependency_indices@ == dependency_list(old.dependency_tree@, q)
        &&& new.list_state.selected == selection_within(
            old.list_state.selected,
            new.filtered_dependency_indices@.len(),
        )
        &&& new.filtered_candidates@.len() == 0
    } else {
        &&& new == (App {
            filtered_items: new.filtered_items,
            list_state: new.list_state,
            filtered_candidates: new.filtered_candidates,
            completion_selected: 0,
            ..old
        })
        &&& new.filtered_items@ == matching_items(old.items@, old.current_tab, q)
        &&& new.list_state.selected == selection_within(
            old.list_state.selected,
            new.filtered_items@.len(),
        )
        &&& new.filtered_candidates@ == candidates_for_tab(
            filter_candidates_of(old.candidates@, old.search_input@),
            old.current_tab,
        )
    }
}

/// The completion kind of an item kind.
pub open spec fn candidate_kind_of(kind: ItemKind) -> CandidateKind {
    match kind {
        ItemKind::Function => CandidateKind::Function,
        ItemKind::Struct => CandidateKind::Struct,
        ItemKind::Enum => CandidateKind::Enum,
        ItemKind::Trait => CandidateKind::Trait,
        ItemKind::Module => CandidateKind::Module,
        ItemKind::TypeAlias => CandidateKind::Type,
        ItemKind::Const | ItemKind::Static => CandidateKind::Const,
        _ => CandidateKind::Other,
    }
}

/// Whether an item's documentation can be summarised: a first line over 40 bytes is
/// cut after byte 37, which must then start a character.
pub open spec fn summary_cut_ok(doc: Seq<char>) -> bool {
    let b = encode_utf8(first_line(doc));
    b.len() <= 40 || is_char_boundary(b, 37)
}

/// The one-line summary of documentation: its first line, cut to 37 bytes followed
/// by `...` when it is longer than 40 bytes.
pub open spec fn doc_summary(doc: Seq<char>) -> Seq<char> {
    let line = first_line(doc);
    let b = encode_utf8(line);
    if b.len() > 40 {
        decode_utf8(b.take(37)) + "..."@
    } else {
        line
    }
}

/// `c` is the completion candidate for `item`.
pub open spec fn candidate_of(item: AnalyzedItem, c: CompletionCandidate) -> bool {
    &&& c.primary == item.name
    &&& opt_view(c.secondary) == match item.documentation {
        Some(d) => Some(doc_summary(d@)),
        None => None,
    }
    &&& c.kind == candidate_kind_of(item.kind)
    &&& c.score == 0
}

/// Every item's documentation can be summarised.
pub open spec fn summaries_cut_ok(items: Seq<AnalyzedItem>) -> bool {
    forall|i: int|
        0 <= i < items.len() ==> match #[trigger] items[i].documentation {
            Some(d) => summary_cut_ok(d@),
            None => true,
        }
}

/// The state after rebuilding the completions from the analyzed items: one
/// candidate per item, in order, all of them offered.
pub open spec fn candidates_rebuilt(old: App, new: App) -> bool {
    &&& new == (App {
        candidates: new.candidates,
        filtered_candidates: new.filtered_candidates,
        ..old
    })
    &&& new.candidates@.len() == old.items@.len()
    &&& forall|i: int|
        0 <= i < old.items@.len() ==> #[trigger] candidate_of(old.items@[i], new.candidates@[i])
    &&& new.filtered_candidates@ == new.candidates@
}

fn summary_of(doc: &String) -> (r: String)
    requires
        summary_cut_ok(doc@),
    ensures
        r@ == doc_summary(doc@),
{
    let chars = chars_of(doc.as_str());
    let line_chars = first_line_chars(chars.as_slice());
    let line = string_of(line_chars.as_slice());
    let s = line.as_str();
    if s.as_bytes().len() > 40 {
        let (head, _) = s.split_at(37);
        proof {
            encode_utf8_decode_utf8(head@);
        }
        let mut r = head.to_owned();
        r.append("...");
        r
    } else {
        line
    }
}

fn candidate_kind_exec(kind: ItemKind) -> (k: CandidateKind)
    ensures
        k == candidate_kind_of(kind),
{
    match kind {
        ItemKind::Function => CandidateKind::Function,
        ItemKind::Struct => CandidateKind::Struct,
        ItemKind::Enum => CandidateKind::Enum,
        ItemKind::Trait => CandidateKind::Trait,
        ItemKind::Module => CandidateKind::Module,
        ItemKind::TypeAlias => CandidateKind::Type,
        ItemKind::Const | ItemKind::Static => CandidateKind::Const,
        _ => CandidateKind::Other,
    }
}

impl App {
    pub(crate) fn filter_installed_crates(&mut self)
        ensures
            installed_filter_result(*old(self), *final(self)),
    {
        if self.selected_installed_crate.is_some() {
            let query = lowered_chars(self.search_input.as_str());
            self.installed_crate_filtered = filter_installed_items(
                self.installed_crate_items.as_slice(),
                query.as_slice(),
            );
        }
        let len = self.get_current_list_len();
        match self.list_state.selected() {
            Some(s) => {
                if s >= len {
                    self.list_state.select(Some(0));
                }
            },
            None => {},
        }
    }

    /// Filters the current list by the search input (lower-cased) and the current tab,
    /// and updates the completions offered.
    pub fn filter_items(&mut self)
        ensures
            filter_result(*old(self), *final(self)),
    {
        if self.current_tab == Tab::Crates && self.selected_installed_crate.is_some() {
            self.filter_installed_crates();
            return;
        }
        let query = lowered_chars(self.search_input.as_str());
        if self.current_tab == Tab::Crates {
            self.filtered_dependency_indices = filter_dependencies(
                self.dependency_tree.as_slice(),
                query.as_slice(),
            );
            match self.list_state.selected() {
                Some(s) => {
                    if s >= self.filtered_dependency_indices.len() {
                        self.list_state.select(Some(0));
                    }
                },
                None => {},
            }
            self.filtered_candidates = Vec::new();
            self.completion_selected = 0;
            return;
        }
        self.filtered_items = filter_items_by_tab(
            self.items.as_slice(),
            self.current_tab,
            query.as_slice(),
        );
        match self.list_state.selected() {
            Some(s) => {
                if s >= self.filtered_items.len() {
                    self.list_state.select(Some(0));
                }
            },
            None => {},
        }
        let matched = filter_candidates(self.candidates.as_slice(), self.search_input.as_str());
        self.filtered_candidates = filter_candidates_by_tab(matched, self.current_tab);
        self.completion_selected = 0;
    }

    /// Rebuilds the completion candidates from the analyzed items: each item's name,
    /// the summary of its documentation, and its kind; all of them are offered.
    pub fn update_candidates(&mut self)
        requires
            summaries_cut_ok(old(self).items@),
        ensures
            candidates_rebuilt(*old(self), *final(self)),
    {
        let mut cs: Vec<CompletionCandidate> = Vec::new();
        let mut copy: Vec<CompletionCandidate> = Vec::new();
        let mut i: usize = 0;
        while i < self.items.len()
            invariant
                i <= self.items@.len(),
                summaries_cut_ok(self.items@),
                cs@.len() == i,
                copy@ == cs@,
                forall|k: int| 0 <= k < i ==> #[trigger] candidate_of(self.items@[k], cs@[k]),
            decreases self.items@.len() - i,
        {
            let item = &self.items[i];
            let secondary = match &item.documentation {
                Some(d) => {
                    assert(match self.items@[i as int].documentation {
                        Some(d) => summary_cut_ok(d@),
                        None => true,
                    });
                    Some(summary_of(d))
                },
                None => None,
            };
            let c = CompletionCandidate {
                primary: item.name.clone(),
                secondary,
                kind: candidate_kind_exec(item.kind),
                score: 0,
            };
            copy.push(c.duplicate());
            cs.push(c);
            i = i + 1;
        }
        self.candidates = cs;
        self.filtered_candidates = copy;
    }
}

/// Whether some string of `v` has the view `n`.
pub open spec fn views_contain(v: Seq<String>, n: Seq<char>) -> bool {
    exists|j: int| 0 <= j < v.len() && #[trigger] v[j]@ == n
}

fn contains_name(v: &Vec<String>, name: &String) -> (b: bool)
    ensures
        b == views_contain(v@, name@),
{
    let mut i: usize = 0;
    while i < v.len()
        invariant
            i <= v@.len(),
            forall|j: int| 0 <= j < i ==> #[trigger] v@[j]@ != name@,
        decreases v@.len() - i,
    {
        if v[i] == *name {
            return true;
        }
        i = i + 1;
    }
    false
}

impl Default for App {
    /// The same as [`App::new`].
    fn default() -> (app: Self)
        ensures
            is_initial(app),
    {
        App::new()
    }
}

/// After filtering, a selected row lies within the new list (or is its first row):
/// filtering never leaves the selection past the end, and never selects a row when
/// none was selected.
pub proof fn lemma_filter_keeps_selection(old: App, new: App)
    requires
        filter_result(old, new),
    ensures
        new.list_state.selected matches Some(i) ==> i < current_list_len(new) || i == 0,
        old.list_state.selected is None ==> new.list_state.selected is None,
{
}

/// Moving to the next row and back, or to the previous row and forward, returns to
/// a row within the list.
pub proof fn lemma_next_prev_row(s: usize, len: nat)
    requires
        s < len,
        len <= usize::MAX,
    ensures
        prev_row(next_row(Some(s), len), len) == Some(s),
        next_row(prev_row(Some(s), len), len) == Some(s),
{
    if s + 1 < len {
        assert((s + 1) % (len as int) == s + 1) by {
            vstd::arithmetic::div_mod::lemma_small_mod((s + 1) as nat, len);
        }
    } else {
        assert((s + 1) % (len as int) == 0) by {
            vstd::arithmetic::div_mod::lemma_mod_self_0(len as int);
        }
    }
    if s == 0 {
        assert(((len - 1) + 1) % (len as int) == 0) by {
            vstd::arithmetic::div_mod::lemma_mod_self_0(len as int);
        }
    } else {
        assert(((s - 1) + 1) % (len as int) == s) by {
            vstd::arithmetic::div_mod::lemma_small_mod(s as nat, len);
        }
    }
}

/// Selecting the next row and then the previous one gives back the state before,
/// when a row within the list was selected.
pub proof fn lemma_move_down_then_up(a: App, b: App, c: App)
    requires
        moved_down(a, b),
        moved_up(b, c),
        a.list_state.selected matches Some(s) && s < current_list_len(a),
    ensures
        c == a,
{
    let s = a.list_state.selected->0;
    let len = current_list_len(a);
    assert(len <= usize::MAX) by {
        if a.current_tab == Tab::Crates {
            if a.selected_installed_crate is Some {
                assert(a.installed_crate_filtered.len() == a.installed_crate_filtered@.len());
            } else {
                assert(a.filtered_dependency_indices.len() == a.filtered_dependency_indices@.len());
            }
        } else {
            assert(a.filtered_items.len() == a.filtered_items@.len());
        }
    }
    lemma_next_prev_row(s, len);
    assert(current_list_len(b) == len);
}

/// Selecting the next completion and then the previous one gives back the state
/// before, when a completion within the list was selected.
pub proof fn lemma_completion_down_then_up(a: App, b: App, c: App)
    requires
        completion_moved_down(a, b),
        completion_moved_up(b, c),
        a.completion_selected < a.filtered_candidates@.len(),
    ensures
        c == a,
{
    let n = a.filtered_candidates@.len();
    assert(a.filtered_candidates.len() == n);
    lemma_next_prev_row(a.completion_selected, n);
}


/// Showing and then hiding the help overlay (or the reverse) gives back the state.
pub proof fn lemma_toggle_help_twice(a: App, b: App, c: App)
    requires
        b == (App { show_help: !a.show_help, ..a }),
        c == (App { show_help: !b.show_help, ..b }),
    ensures
        c == a,
{
}

/// Showing and then hiding the settings overlay (or the reverse) gives back the
/// state.
pub proof fn lemma_toggle_settings_twice(a: App, b: App, c: App)
    requires
        b == (App { show_settings: !a.show_settings, ..a }),
        c == (App { show_settings: !b.show_settings, ..b }),
    ensures
        c == a,
{
}


/// The inspector's scroll position when the selection may have changed from `last`
/// to `current`: back to the top on a change, kept otherwise.
pub fn inspector_scroll_after(last: Option<usize>, current: Option<usize>, scroll: usize) -> (r: usize)
    ensures
        r == if last == current {
            scroll
        } else {
            0
        },
{
    let same = match (last, current) {
        (Some(a), Some(b)) => a == b,
        (None, None) => true,
        _ => false,
    };
    if same {
        scroll
    } else {
        0
    }
}

} // verus!
