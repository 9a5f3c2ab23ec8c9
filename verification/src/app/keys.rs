//! What a key press does. The decision (which effect a key has in the current state)
//! is [`key_effect_of`]; what each effect changes is [`effect_applied`]. Effects that
//! need the outside world (a browser, a crate scan, analyzing a crate, running
//! Copilot) are handed back as a [`KeyAction`] for the caller to carry out.

use vstd::prelude::*;

use crate::analyzer::{AnalyzedItem, InstalledCrate};
use crate::text::{pop_char, push_char};
use crate::ui::app::types::{focus_after, focus_before};
use crate::ui::app::{Focus, Tab};
use super::copilot::copilot_submitted;
use super::crates::{crate_selected, qualified_search_result, QualifiedSearch};
use super::input::{
    chat_toggled, completion_taken, deleted_from_search, search_cleared, selected_item_of,
    typed_into_search,
};
use super::state::{
    browsing_installed_crate, completion_moved_down, completion_moved_up, crate_for_display,
    current_list_len, dependency_root, filter_result, installed_crate_cleared,
    installed_filter_result, moved_down, moved_up, next_row, prev_row, selected_dependency, App,
    ListState,
};

verus! {

/// A key, as far as the inspector tells keys apart.
#[derive(Debug, Clone, Copy, PartialEq, Eq, Structural)]
pub enum Key {
    Char(char),
    Enter,
    Esc,
    Backspace,
    Tab,
    BackTab,
    Up,
    Down,
    Left,
    Right,
    Home,
    End,
    PageUp,
    PageDown,
    Other,
}

/// The modifiers held with a key: Shift, and whether any other modifier is held.
#[derive(Debug, Clone, Copy, PartialEq, Eq, Structural)]
pub struct Modifiers {
    pub shift: bool,
    pub others: bool,
}

/// A move of a scroll position.
#[derive(Debug, Clone, Copy, PartialEq, Eq, Structural)]
pub enum ScrollMove {
    Down(usize),
    Up(usize),
    Top,
}

/// The project's web pages.
#[derive(Debug, Clone, Copy, PartialEq, Eq, Structural)]
pub enum Link {
    Repository,
    Sponsors,
}

/// What a key press does.
#[derive(Debug, Clone, Copy, PartialEq, Eq, Structural)]
pub enum KeyEffect {
    Nothing,
    Quit,
    ChatScroll(ScrollMove),
    ChatType(char),
    ChatBackspace,
    ChatSubmit,
    ToggleHelp,
    HideHelp,
    CycleTheme,
    ToggleSettings,
    OpenLink(Link),
    ToggleChat,
    SelectItemHint,
    HideCompletion,
    ClearInstalledCrate,
    ClearSearch,
    SwitchTab(Tab),
    SearchChar(char),
    SearchBackspace,
    NextCompletion,
    PrevCompletion,
    SetFocus(Focus),
    NextFocus,
    PrevFocus,
    SelectCompletion,
    CompleteAndNextFocus,
    SubmitSearch,
    NextItem,
    PrevItem,
    NextItems(usize),
    PrevItems(usize),
    OpenListEntry,
    OpenCrate(bool),
    ListLeft,
    FirstRow,
    LastRow,
    InspectorScroll(ScrollMove),
}

/// Outside work a key press asks for.
pub enum KeyAction {
    /// Nothing more to do.
    Handled,
    /// Switch to the next colour theme and save the settings.
    CycleTheme,
    /// Open the URL in a browser.
    OpenUrl(String),
    /// Open the crate's page in a browser, then report it with
    /// [`App::report_crate_opened`].
    OpenCrate { name: String, url: String },
    /// The tab was switched; `scan` says whether the installed crates must be scanned
    /// (then [`App::scan_installed_crates`]).
    SwitchedTab { scan: bool },
    /// Analyze the installed crate, then [`App::enter_installed_crate`].
    EnterInstalledCrate(String),
    /// Analyze the installed crate, then [`App::complete_path_search`] with `rest`.
    CompletePathSearch { name: String, rest: String },
    /// Run Copilot with the prompt, then [`App::receive_copilot_response`].
    AskCopilot(String),
}

/// No modifier is held.
pub open spec fn no_mods(m: Modifiers) -> bool {
    !m.shift && !m.others
}

/// Only Shift is held.
pub open spec fn only_shift(m: Modifiers) -> bool {
    m.shift && !m.others
}

/// A scroll position after a move (saturating at both ends).
pub open spec fn scrolled(v: usize, m: ScrollMove) -> usize {
    match m {
        ScrollMove::Down(n) => v.saturating_add(n),
        ScrollMove::Up(n) => v.saturating_sub(n),
        ScrollMove::Top => 0,
    }
}

/// The URL of a project page.
pub open spec fn link_url(l: Link) -> Seq<char> {
    match l {
        Link::Repository => "https://github.com/yashksaini-coder/vizier"@,
        Link::Sponsors => "https://github.com/sponsors/yashksaini-coder"@,
    }
}

/// The URL of a crate's page: on crates.io, or its documentation on docs.rs.
pub open spec fn crate_url(name: Seq<char>, crates_io: bool) -> Seq<char> {
    if crates_io {
        "https://crates.io/crates/"@ + name
    } else {
        "https://docs.rs/"@ + name
    }
}

/// Keys that act on the Copilot chat panel whenever it is open.
pub open spec fn chat_panel_effect(key: Key, mods: Modifiers) -> Option<KeyEffect> {
    match key {
        Key::PageDown => Some(KeyEffect::ChatScroll(ScrollMove::Down(10))),
        Key::PageUp => Some(KeyEffect::ChatScroll(ScrollMove::Up(10))),
        Key::Down => Some(KeyEffect::ChatScroll(ScrollMove::Down(1))),
        Key::Up => Some(KeyEffect::ChatScroll(ScrollMove::Up(1))),
        Key::Home => Some(KeyEffect::ChatScroll(ScrollMove::Top)),
        Key::End => Some(KeyEffect::ChatScroll(ScrollMove::Down(9999))),
        Key::Char(c) => if only_shift(mods) && c == 'C' {
            None
        } else {
            Some(KeyEffect::ChatType(c))
        },
        Key::Backspace => Some(KeyEffect::ChatBackspace),
        Key::Enter => if no_mods(mods) {
            Some(KeyEffect::ChatSubmit)
        } else {
            None
        },
        _ => None,
    }
}

/// Escape closes the innermost thing open: settings, help, completions, the chat, the
/// installed crate being browsed, the search input; otherwise it quits.
pub open spec fn esc_effect(app: App) -> KeyEffect {
    if app.show_settings {
        KeyEffect::ToggleSettings
    } else if app.show_help {
        KeyEffect::HideHelp
    } else if app.show_completion {
        KeyEffect::HideCompletion
    } else if app.focus == Focus::CopilotChat {
        KeyEffect::ToggleChat
    } else if browsing_installed_crate(app) {
        KeyEffect::ClearInstalledCrate
    } else if app.search_input@.len() > 0 {
        KeyEffect::ClearSearch
    } else {
        KeyEffect::Quit
    }
}

/// Single-letter shortcuts work while neither the search bar nor the chat has focus.
pub open spec fn shortcuts_free(app: App) -> bool {
    app.focus != Focus::CopilotChat && app.focus != Focus::Search
}

/// Global shortcuts and Escape.
pub open spec fn shortcut_effect(app: App, key: Key, mods: Modifiers) -> Option<KeyEffect> {
    let free = shortcuts_free(app);
    match key {
        Key::Char(c) => if c == 'q' && no_mods(mods) && free {
            Some(KeyEffect::Quit)
        } else if c == '?' && no_mods(mods) && free {
            Some(KeyEffect::ToggleHelp)
        } else if c == 't' && no_mods(mods) && free {
            Some(KeyEffect::CycleTheme)
        } else if c == 'S' && mods.shift && free {
            Some(KeyEffect::ToggleSettings)
        } else if c == 'g' && no_mods(mods) && free {
            Some(KeyEffect::OpenLink(Link::Repository))
        } else if c == 'C' && mods.shift && free {
            Some(
                if selected_item_of(app) is Some {
                    KeyEffect::ToggleChat
                } else {
                    KeyEffect::SelectItemHint
                },
            )
        } else if c == 's' && no_mods(mods) && free {
            Some(KeyEffect::OpenLink(Link::Sponsors))
        } else {
            None
        },
        Key::Esc => Some(esc_effect(app)),
        _ => None,
    }
}

/// The number keys select a tab.
pub open spec fn tab_key(app: App, key: Key, mods: Modifiers) -> Option<Tab> {
    match key {
        Key::Char(c) => if no_mods(mods) && shortcuts_free(app) {
            if c == '1' {
                Some(Tab::Types)
            } else if c == '2' {
                Some(Tab::Functions)
            } else if c == '3' {
                Some(Tab::Modules)
            } else if c == '4' {
                Some(Tab::Crates)
            } else {
                None
            }
        } else {
            None
        },
        _ => None,
    }
}

/// Keys on the search bar.
pub open spec fn search_key_effect(app: App, key: Key, mods: Modifiers) -> KeyEffect {
    match key {
        Key::Char(c) => KeyEffect::SearchChar(c),
        Key::Backspace => KeyEffect::SearchBackspace,
        Key::Down => if app.show_completion {
            KeyEffect::NextCompletion
        } else {
            KeyEffect::SetFocus(Focus::List)
        },
        Key::Up => if app.show_completion {
            KeyEffect::PrevCompletion
        } else {
            KeyEffect::Nothing
        },
        Key::Tab => if !no_mods(mods) {
            KeyEffect::Nothing
        } else if app.show_completion {
            KeyEffect::CompleteAndNextFocus
        } else {
            KeyEffect::NextFocus
        },
        Key::BackTab => if no_mods(mods) {
            KeyEffect::PrevFocus
        } else {
            KeyEffect::Nothing
        },
        Key::Enter => if app.show_completion {
            KeyEffect::SelectCompletion
        } else {
            KeyEffect::SubmitSearch
        },
        _ => KeyEffect::Nothing,
    }
}

/// Keys on the list.
pub open spec fn list_key_effect(app: App, key: Key, mods: Modifiers) -> KeyEffect {
    match key {
        Key::Down => KeyEffect::NextItem,
        Key::Up => KeyEffect::PrevItem,
        Key::Tab => if no_mods(mods) {
            KeyEffect::NextFocus
        } else {
            KeyEffect::Nothing
        },
        Key::BackTab => KeyEffect::PrevFocus,
        Key::Enter | Key::Right => KeyEffect::OpenListEntry,
        Key::Left => KeyEffect::ListLeft,
        Key::Home => KeyEffect::FirstRow,
        Key::End => KeyEffect::LastRow,
        Key::PageDown => KeyEffect::NextItems(10),
        Key::PageUp => KeyEffect::PrevItems(10),
        Key::Char(c) => if c == 'j' {
            KeyEffect::NextItem
        } else if c == 'k' {
            KeyEffect::PrevItem
        } else if c == '/' {
            KeyEffect::SetFocus(Focus::Search)
        } else if c == 'l' {
            KeyEffect::OpenListEntry
        } else if (c == 'o' || c == 'c') && no_mods(mods) && app.current_tab == Tab::Crates {
            KeyEffect::OpenCrate(c == 'c')
        } else if c == 'h' {
            KeyEffect::ListLeft
        } else if c == 'g' {
            KeyEffect::FirstRow
        } else if c == 'G' {
            KeyEffect::LastRow
        } else {
            KeyEffect::Nothing
        },
        _ => KeyEffect::Nothing,
    }
}

/// Keys on the inspector.
pub open spec fn inspector_key_effect(app: App, key: Key, mods: Modifiers) -> KeyEffect {
    match key {
        Key::Tab => if no_mods(mods) {
            KeyEffect::NextFocus
        } else {
            KeyEffect::Nothing
        },
        Key::BackTab => KeyEffect::PrevFocus,
        Key::Left | Key::Esc => KeyEffect::SetFocus(Focus::List),
        Key::Down => KeyEffect::InspectorScroll(ScrollMove::Down(1)),
        Key::Up => KeyEffect::InspectorScroll(ScrollMove::Up(1)),
        Key::PageDown => KeyEffect::InspectorScroll(ScrollMove::Down(10)),
        Key::PageUp => KeyEffect::InspectorScroll(ScrollMove::Up(10)),
        Key::Home => KeyEffect::InspectorScroll(ScrollMove::Top),
        Key::Char(c) => if c == 'h' {
            KeyEffect::SetFocus(Focus::List)
        } else if c == '/' {
            KeyEffect::SetFocus(Focus::Search)
        } else if c == 'j' {
            KeyEffect::InspectorScroll(ScrollMove::Down(1))
        } else if c == 'k' {
            KeyEffect::InspectorScroll(ScrollMove::Up(1))
        } else if c == 'g' {
            KeyEffect::InspectorScroll(ScrollMove::Top)
        } else if (c == 'o' || c == 'c') && no_mods(mods) && app.current_tab == Tab::Crates {
            KeyEffect::OpenCrate(c == 'c')
        } else {
            KeyEffect::Nothing
        },
        _ => KeyEffect::Nothing,
    }
}

/// Keys on the Copilot chat.
pub open spec fn chat_key_effect(key: Key, mods: Modifiers) -> KeyEffect {
    match key {
        Key::Esc => KeyEffect::ToggleChat,
        Key::Enter => if no_mods(mods) {
            KeyEffect::ChatSubmit
        } else {
            KeyEffect::Nothing
        },
        Key::Backspace => if no_mods(mods) {
            KeyEffect::ChatBackspace
        } else {
            KeyEffect::Nothing
        },
        Key::Char(c) => if no_mods(mods) || only_shift(mods) {
            KeyEffect::ChatType(c)
        } else if c == 'j' {
            KeyEffect::ChatScroll(ScrollMove::Down(1))
        } else if c == 'k' {
            KeyEffect::ChatScroll(ScrollMove::Up(1))
        } else if c == 'g' {
            KeyEffect::ChatScroll(ScrollMove::Top)
        } else {
            KeyEffect::Nothing
        },
        Key::Down => KeyEffect::ChatScroll(ScrollMove::Down(1)),
        Key::Up => KeyEffect::ChatScroll(ScrollMove::Up(1)),
        Key::PageDown => KeyEffect::ChatScroll(ScrollMove::Down(10)),
        Key::PageUp => KeyEffect::ChatScroll(ScrollMove::Up(10)),
        Key::Home => KeyEffect::ChatScroll(ScrollMove::Top),
        Key::Tab => if no_mods(mods) {
            KeyEffect::NextFocus
        } else {
            KeyEffect::Nothing
        },
        Key::BackTab => KeyEffect::PrevFocus,
        _ => KeyEffect::Nothing,
    }
}

/// Keys handled by the focused panel.
pub open spec fn focus_key_effect(app: App, key: Key, mods: Modifiers) -> KeyEffect {
    match app.focus {
        Focus::Search => search_key_effect(app, key, mods),
        Focus::List => list_key_effect(app, key, mods),
        Focus::Inspector => inspector_key_effect(app, key, mods),
        Focus::CopilotChat => chat_key_effect(key, mods),
    }
}

/// What a key press does: keys for the open chat panel first; then, with the help
/// shown (and no settings), any key but Escape closes it; then global shortcuts and
/// Escape; with settings open only `t` works; then the number keys select a tab, and
/// the focused panel handles the rest.
pub open spec fn key_effect_of(app: App, key: Key, mods: Modifiers) -> KeyEffect {
    let panel = if app.copilot_chat_open {
        chat_panel_effect(key, mods)
    } else {
        None
    };
    match panel {
        Some(e) => e,
        None => if app.show_help && !app.show_settings && key != Key::Esc {
            KeyEffect::HideHelp
        } else {
            match shortcut_effect(app, key, mods) {
            Some(e) => e,
            None => if app.show_settings {
                if key == Key::Char('t') {
                    KeyEffect::CycleTheme
                } else {
                    KeyEffect::Nothing
                }
            } else if app.show_help {
                KeyEffect::HideHelp
            } else {
                match tab_key(app, key, mods) {
                    Some(t) => KeyEffect::SwitchTab(t),
                    None => focus_key_effect(app, key, mods),
                }
            },
            }
        },
    }
}

/// `sel` after `n` moves to the next row of a list of `len` rows.
pub open spec fn next_row_times(sel: Option<usize>, len: nat, n: nat) -> Option<usize>
    decreases n,
{
    if n == 0 {
        sel
    } else {
        next_row(next_row_times(sel, len, (n - 1) as nat), len)
    }
}

/// `sel` after `n` moves to the previous row of a list of `len` rows.
pub open spec fn prev_row_times(sel: Option<usize>, len: nat, n: nat) -> Option<usize>
    decreases n,
{
    if n == 0 {
        sel
    } else {
        prev_row(prev_row_times(sel, len, (n - 1) as nat), len)
    }
}

/// Only the focus changes.
pub open spec fn focused(old: App, new: App, f: Focus) -> bool {
    new == (App { focus: f, ..old })
}

/// Enter on the search bar without completions: inside an installed crate the input
/// is first read as a qualified path (which may ask for a crate to be analyzed first);
/// then the list is filtered and focused.
#[verifier::opaque]
pub open spec fn search_submitted(old: App, new: App, action: KeyAction) -> bool {
    if browsing_installed_crate(old) {
        exists|searched: App, r: QualifiedSearch|
            #![trigger qualified_search_result(old, searched, r)]
            qualified_search_result(old, searched, r) && match r {
                QualifiedSearch::Crate { name, select, rest } if select => {
                    new == searched && action == (KeyAction::CompletePathSearch { name, rest })
                },
                _ => {
                    &&& action is Handled
                    &&& new.focus == Focus::List
                    &&& filter_result(searched, App { focus: searched.focus, ..new })
                },
            }
    } else {
        &&& action is Handled
        &&& new.focus == Focus::List
        &&& filter_result(old, App { focus: old.focus, ..new })
    }
}

/// Tab on the search bar with completions shown: the selected completion is taken,
/// then focus moves to the next panel.
#[verifier::opaque]
pub open spec fn completed_then_focused(old: App, new: App) -> bool {
    exists|taken: App|
        #![trigger completion_taken(old, taken)]
        completion_taken(old, taken) && focused(
            taken,
            new,
            focus_after(old.focus, old.copilot_chat_open),
        )
}

/// Enter on the list: on the Crates tab's dependency list a crate other than the root
/// is entered (after analyzing it); otherwise the inspector is focused.
pub open spec fn list_entry_opened(old: App, new: App, action: KeyAction) -> bool {
    let entered = if old.current_tab == Tab::Crates && old.selected_installed_crate is None {
        match selected_dependency(old) {
            Some(n) => if dependency_root(old) != Some(n) {
                Some(n)
            } else {
                None
            },
            None => None,
        }
    } else {
        None
    };
    match entered {
        Some(n) => {
            &&& new == old
            &&& action matches KeyAction::EnterInstalledCrate(s) && s@ == n
        },
        None => focused(old, new, Focus::Inspector) && action is Handled,
    }
}

/// Opening the page of the crate shown (see [`crate_for_display`]) on crates.io or
/// docs.rs; nothing without one.
pub open spec fn crate_page_requested(old: App, new: App, action: KeyAction, crates_io: bool) -> bool {
    &&& new == old
    &&& match crate_for_display(old) {
        Some(n) => action matches KeyAction::OpenCrate { name, url } && name@ == n && url@
            == crate_url(n, crates_io),
        None => action is Handled,
    }
}

/// What an effect changes and asks for; `scroll` is the inspector's scroll position.
pub open spec fn effect_applied(
    e: KeyEffect,
    old: App,
    new: App,
    scroll: usize,
    new_scroll: usize,
    action: KeyAction,
) -> bool {
    let plain = new_scroll == scroll && action is Handled;
    match e {
        KeyEffect::Nothing => new == old && plain,
        KeyEffect::Quit => new == (App { should_quit: true, ..old }) && plain,
        KeyEffect::ChatScroll(m) => new == (App {
            copilot_chat_scroll: scrolled(old.copilot_chat_scroll, m),
            ..old
        }) && plain,
        KeyEffect::ChatType(c) => {
            &&& new == (App {
                focus: Focus::CopilotChat,
                copilot_chat_input: new.copilot_chat_input,
                ..old
            })
            &&& new.copilot_chat_input@ == old.copilot_chat_input@.push(c)
            &&& plain
        },
        KeyEffect::ChatBackspace => {
            &&& new == (App {
                focus: Focus::CopilotChat,
                copilot_chat_input: new.copilot_chat_input,
                ..old
            })
            &&& new.copilot_chat_input@ == if old.copilot_chat_input@.len() > 0 {
                old.copilot_chat_input@.drop_last()
            } else {
                old.copilot_chat_input@
            }
            &&& plain
        },
        KeyEffect::ChatSubmit => {
            &&& new_scroll == scroll
            &&& match action {
                KeyAction::AskCopilot(p) => copilot_submitted(
                    App { focus: Focus::CopilotChat, ..old },
                    new,
                    Some(p),
                ),
                KeyAction::Handled => copilot_submitted(
                    App { focus: Focus::CopilotChat, ..old },
                    new,
                    None,
                ),
                _ => false,
            }
        },
        KeyEffect::ToggleHelp => new == (App { show_help: !old.show_help, ..old }) && plain,
        KeyEffect::HideHelp => new == (App { show_help: false, ..old }) && plain,
        KeyEffect::CycleTheme => new == old && new_scroll == scroll && action is CycleTheme,
        KeyEffect::ToggleSettings => new == (App { show_settings: !old.show_settings, ..old })
            && plain,
        KeyEffect::OpenLink(l) => {
            &&& new == old
            &&& new_scroll == scroll
            &&& action matches KeyAction::OpenUrl(u) && u@ == link_url(l)
        },
        KeyEffect::ToggleChat => chat_toggled(old, new) && plain,
        KeyEffect::SelectItemHint => {
            &&& new == (App { status_message: new.status_message, ..old })
            &&& new.status_message@ == "Select an item in the list to ask Copilot about it"@
            &&& plain
        },
        KeyEffect::HideCompletion => new == (App { show_completion: false, ..old }) && plain,
        KeyEffect::ClearInstalledCrate => installed_crate_cleared(old, new) && plain,
        KeyEffect::ClearSearch => search_cleared(old, new) && plain,
        KeyEffect::SwitchTab(t) => {
            &&& filter_result(
                App { current_tab: t, list_state: ListState { selected: Some(0usize) }, ..old },
                new,
            )
            &&& new_scroll == scroll
            &&& action == (KeyAction::SwitchedTab {
                scan: t == Tab::Crates && old.installed_crates_list@.len() == 0,
            })
        },
        KeyEffect::SearchChar(c) => typed_into_search(old, new, c) && plain,
        KeyEffect::SearchBackspace => deleted_from_search(old, new) && plain,
        KeyEffect::NextCompletion => completion_moved_down(old, new) && plain,
        KeyEffect::PrevCompletion => completion_moved_up(old, new) && plain,
        KeyEffect::SetFocus(f) => focused(old, new, f) && plain,
        KeyEffect::NextFocus => focused(old, new, focus_after(old.focus, old.copilot_chat_open))
            && plain,
        KeyEffect::PrevFocus => focused(old, new, focus_before(old.focus, old.copilot_chat_open))
            && plain,
        KeyEffect::SelectCompletion => completion_taken(old, new) && plain,
        KeyEffect::CompleteAndNextFocus => completed_then_focused(old, new) && plain,
        KeyEffect::SubmitSearch => search_submitted(old, new, action) && new_scroll == scroll,
        KeyEffect::NextItem => moved_down(old, new) && plain,
        KeyEffect::PrevItem => moved_up(old, new) && plain,
        KeyEffect::NextItems(n) => {
            let len = current_list_len(old);
            &&& len == 0 ==> new == old
            &&& len > 0 ==> new == (App {
                list_state: ListState {
                    selected: next_row_times(old.list_state.selected, len, n as nat),
                },
                ..old
            })
            &&& plain
        },
        KeyEffect::PrevItems(n) => {
            let len = current_list_len(old);
            &&& len == 0 ==> new == old
            &&& len > 0 ==> new == (App {
                list_state: ListState {
                    selected: prev_row_times(old.list_state.selected, len, n as nat),
                },
                ..old
            })
            &&& plain
        },
        KeyEffect::OpenListEntry => list_entry_opened(old, new, action) && new_scroll == scroll,
        KeyEffect::OpenCrate(crates_io) => crate_page_requested(old, new, action, crates_io)
            && new_scroll == scroll,
        KeyEffect::ListLeft => if browsing_installed_crate(old) {
            installed_crate_cleared(old, new) && plain
        } else {
            focused(old, new, Focus::Search) && plain
        },
        KeyEffect::FirstRow => {
            &&& current_list_len(old) > 0 ==> new == (App {
                list_state: ListState { selected: Some(0usize) },
                ..old
            })
            &&& current_list_len(old) == 0 ==> new == old
            &&& plain
        },
        KeyEffect::LastRow => {
            &&& current_list_len(old) > 0 ==> new == (App {
                list_state: ListState { selected: Some((current_list_len(old) - 1) as usize) },
                ..old
            })
            &&& current_list_len(old) == 0 ==> new == old
            &&& plain
        },
        KeyEffect::InspectorScroll(m) => new == old && new_scroll == scrolled(scroll, m)
            && action is Handled,
    }
}

fn no_mods_exec(m: Modifiers) -> (b: bool)
    ensures
        b == no_mods(m),
{
    !m.shift && !m.others
}

fn only_shift_exec(m: Modifiers) -> (b: bool)
    ensures
        b == only_shift(m),
{
    m.shift && !m.others
}

fn chat_panel_effect_exec(key: Key, mods: Modifiers) -> (r: Option<KeyEffect>)
    ensures
        r == chat_panel_effect(key, mods),
{
    match key {
        Key::PageDown => Some(KeyEffect::ChatScroll(ScrollMove::Down(10))),
        Key::PageUp => Some(KeyEffect::ChatScroll(ScrollMove::Up(10))),
        Key::Down => Some(KeyEffect::ChatScroll(ScrollMove::Down(1))),
        Key::Up => Some(KeyEffect::ChatScroll(ScrollMove::Up(1))),
        Key::Home => Some(KeyEffect::ChatScroll(ScrollMove::Top)),
        Key::End => Some(KeyEffect::ChatScroll(ScrollMove::Down(9999))),
        Key::Char(c) => if only_shift_exec(mods) && c == 'C' {
            None
        } else {
            Some(KeyEffect::ChatType(c))
        },
        Key::Backspace => Some(KeyEffect::ChatBackspace),
        Key::Enter => if no_mods_exec(mods) {
            Some(KeyEffect::ChatSubmit)
        } else {
            None
        },
        _ => None,
    }
}

fn search_key_effect_exec(show_completion: bool, key: Key, mods: Modifiers) -> (e: KeyEffect)
    ensures
        forall|app: App|
            app.show_completion == show_completion ==> e == search_key_effect(app, key, mods),
{
    match key {
        Key::Char(c) => KeyEffect::SearchChar(c),
        Key::Backspace => KeyEffect::SearchBackspace,
        Key::Down => if show_completion {
            KeyEffect::NextCompletion
        } else {
            KeyEffect::SetFocus(Focus::List)
        },
        Key::Up => if show_completion {
            KeyEffect::PrevCompletion
        } else {
            KeyEffect::Nothing
        },
        Key::Tab => if !no_mods_exec(mods) {
            KeyEffect::Nothing
        } else if show_completion {
            KeyEffect::CompleteAndNextFocus
        } else {
            KeyEffect::NextFocus
        },
        Key::BackTab => if no_mods_exec(mods) {
            KeyEffect::PrevFocus
        } else {
            KeyEffect::Nothing
        },
        Key::Enter => if show_completion {
            KeyEffect::SelectCompletion
        } else {
            KeyEffect::SubmitSearch
        },
        _ => KeyEffect::Nothing,
    }
}

fn list_key_effect_exec(tab: Tab, key: Key, mods: Modifiers) -> (e: KeyEffect)
    ensures
        forall|app: App| app.current_tab == tab ==> e == list_key_effect(app, key, mods),
{
    match key {
        Key::Down => KeyEffect::NextItem,
        Key::Up => KeyEffect::PrevItem,
        Key::Tab => if no_mods_exec(mods) {
            KeyEffect::NextFocus
        } else {
            KeyEffect::Nothing
        },
        Key::BackTab => KeyEffect::PrevFocus,
        Key::Enter | Key::Right => KeyEffect::OpenListEntry,
        Key::Left => KeyEffect::ListLeft,
        Key::Home => KeyEffect::FirstRow,
        Key::End => KeyEffect::LastRow,
        Key::PageDown => KeyEffect::NextItems(10),
        Key::PageUp => KeyEffect::PrevItems(10),
        Key::Char(c) => if c == 'j' {
            KeyEffect::NextItem
        } else if c == 'k' {
            KeyEffect::PrevItem
        } else if c == '/' {
            KeyEffect::SetFocus(Focus::Search)
        } else if c == 'l' {
            KeyEffect::OpenListEntry
        } else if (c == 'o' || c == 'c') && no_mods_exec(mods) && tab == Tab::Crates {
            KeyEffect::OpenCrate(c == 'c')
        } else if c == 'h' {
            KeyEffect::ListLeft
        } else if c == 'g' {
            KeyEffect::FirstRow
        } else if c == 'G' {
            KeyEffect::LastRow
        } else {
            KeyEffect::Nothing
        },
        _ => KeyEffect::Nothing,
    }
}

fn inspector_key_effect_exec(tab: Tab, key: Key, mods: Modifiers) -> (e: KeyEffect)
    ensures
        forall|app: App| app.current_tab == tab ==> e == inspector_key_effect(app, key, mods),
{
    match key {
        Key::Tab => if no_mods_exec(mods) {
            KeyEffect::NextFocus
        } else {
            KeyEffect::Nothing
        },
        Key::BackTab => KeyEffect::PrevFocus,
        Key::Left | Key::Esc => KeyEffect::SetFocus(Focus::List),
        Key::Down => KeyEffect::InspectorScroll(ScrollMove::Down(1)),
        Key::Up => KeyEffect::InspectorScroll(ScrollMove::Up(1)),
        Key::PageDown => KeyEffect::InspectorScroll(ScrollMove::Down(10)),
        Key::PageUp => KeyEffect::InspectorScroll(ScrollMove::Up(10)),
        Key::Home => KeyEffect::InspectorScroll(ScrollMove::Top),
        Key::Char(c) => if c == 'h' {
            KeyEffect::SetFocus(Focus::List)
        } else if c == '/' {
            KeyEffect::SetFocus(Focus::Search)
        } else if c == 'j' {
            KeyEffect::InspectorScroll(ScrollMove::Down(1))
        } else if c == 'k' {
            KeyEffect::InspectorScroll(ScrollMove::Up(1))
        } else if c == 'g' {
            KeyEffect::InspectorScroll(ScrollMove::Top)
        } else if (c == 'o' || c == 'c') && no_mods_exec(mods) && tab == Tab::Crates {
            KeyEffect::OpenCrate(c == 'c')
        } else {
            KeyEffect::Nothing
        },
        _ => KeyEffect::Nothing,
    }
}

fn chat_key_effect_exec(key: Key, mods: Modifiers) -> (e: KeyEffect)
    ensures
        e == chat_key_effect(key, mods),
{
    match key {
        Key::Esc => KeyEffect::ToggleChat,
        Key::Enter => if no_mods_exec(mods) {
            KeyEffect::ChatSubmit
        } else {
            KeyEffect::Nothing
        },
        Key::Backspace => if no_mods_exec(mods) {
            KeyEffect::ChatBackspace
        } else {
            KeyEffect::Nothing
        },
        Key::Char(c) => if no_mods_exec(mods) || only_shift_exec(mods) {
            KeyEffect::ChatType(c)
        } else if c == 'j' {
            KeyEffect::ChatScroll(ScrollMove::Down(1))
        } else if c == 'k' {
            KeyEffect::ChatScroll(ScrollMove::Up(1))
        } else if c == 'g' {
            KeyEffect::ChatScroll(ScrollMove::Top)
        } else {
            KeyEffect::Nothing
        },
        Key::Down => KeyEffect::ChatScroll(ScrollMove::Down(1)),
        Key::Up => KeyEffect::ChatScroll(ScrollMove::Up(1)),
        Key::PageDown => KeyEffect::ChatScroll(ScrollMove::Down(10)),
        Key::PageUp => KeyEffect::ChatScroll(ScrollMove::Up(10)),
        Key::Home => KeyEffect::ChatScroll(ScrollMove::Top),
        Key::Tab => if no_mods_exec(mods) {
            KeyEffect::NextFocus
        } else {
            KeyEffect::Nothing
        },
        Key::BackTab => KeyEffect::PrevFocus,
        _ => KeyEffect::Nothing,
    }
}

/// The URL of a project page.
pub fn link_url_of(l: Link) -> (u: &'static str)
    ensures
        u@ == link_url(l),
{
    match l {
        Link::Repository => "https://github.com/yashksaini-coder/vizier",
        Link::Sponsors => "https://github.com/sponsors/yashksaini-coder",
    }
}

/// The URL of a crate's page on crates.io, or of its documentation on docs.rs.
pub fn crate_url_of(name: &str, crates_io: bool) -> (u: String)
    ensures
        u@ == crate_url(name@, crates_io),
{
    let mut u = if crates_io {
        String::from_str("https://crates.io/crates/")
    } else {
        String::from_str("https://docs.rs/")
    };
    u.append(name);
    u
}

impl App {
    fn shortcut_effect_exec(&self, key: Key, mods: Modifiers) -> (r: Option<KeyEffect>)
        ensures
            r == shortcut_effect(*self, key, mods),
    {
        let free = self.focus != Focus::CopilotChat && self.focus != Focus::Search;
        let none = no_mods_exec(mods);
        match key {
            Key::Char(c) => if c == 'q' && none && free {
                Some(KeyEffect::Quit)
            } else if c == '?' && none && free {
                Some(KeyEffect::ToggleHelp)
            } else if c == 't' && none && free {
                Some(KeyEffect::CycleTheme)
            } else if c == 'S' && mods.shift && free {
                Some(KeyEffect::ToggleSettings)
            } else if c == 'g' && none && free {
                Some(KeyEffect::OpenLink(Link::Repository))
            } else if c == 'C' && mods.shift && free {
                Some(
                    if self.selected_item().is_some() {
                        KeyEffect::ToggleChat
                    } else {
                        KeyEffect::SelectItemHint
                    },
                )
            } else if c == 's' && none && free {
                Some(KeyEffect::OpenLink(Link::Sponsors))
            } else {
                None
            },
            Key::Esc => Some(
                if self.show_settings {
                    KeyEffect::ToggleSettings
                } else if self.show_help {
                    KeyEffect::HideHelp
                } else if self.show_completion {
                    KeyEffect::HideCompletion
                } else if self.focus == Focus::CopilotChat {
                    KeyEffect::ToggleChat
                } else if self.current_tab == Tab::Crates && self.selected_installed_crate.is_some() {
                    KeyEffect::ClearInstalledCrate
                } else if self.search_input.as_str().unicode_len() > 0 {
                    KeyEffect::ClearSearch
                } else {
                    KeyEffect::Quit
                },
            ),
            _ => None,
        }
    }

    fn tab_key_exec(&self, key: Key, mods: Modifiers) -> (r: Option<Tab>)
        ensures
            r == tab_key(*self, key, mods),
    {
        match key {
            Key::Char(c) => if no_mods_exec(mods) && self.focus != Focus::CopilotChat && self.focus
                != Focus::Search {
                if c == '1' {
                    Some(Tab::Types)
                } else if c == '2' {
                    Some(Tab::Functions)
                } else if c == '3' {
                    Some(Tab::Modules)
                } else if c == '4' {
                    Some(Tab::Crates)
                } else {
                    None
                }
            } else {
                None
            },
            _ => None,
        }
    }

    /// What pressing `key` with `mods` does in the current state.
    pub fn key_effect(&self, key: Key, mods: Modifiers) -> (e: KeyEffect)
        ensures
            e == key_effect_of(*self, key, mods),
    {
        if self.copilot_chat_open {
            match chat_panel_effect_exec(key, mods) {
                Some(e) => return e,
                None => {},
            }
        }
        if self.show_help && !self.show_settings {
            match key {
                Key::Esc => {},
                _ => {
                    return KeyEffect::HideHelp;
                },
            }
        }
        match self.shortcut_effect_exec(key, mods) {
            Some(e) => return e,
            None => {},
        }
        if self.show_settings {
            return match key {
                Key::Char(c) => if c == 't' {
                    KeyEffect::CycleTheme
                } else {
                    KeyEffect::Nothing
                },
                _ => KeyEffect::Nothing,
            };
        }
        if self.show_help {
            return KeyEffect::HideHelp;
        }
        match self.tab_key_exec(key, mods) {
            Some(t) => return KeyEffect::SwitchTab(t),
            None => {},
        }
        match self.focus {
            Focus::Search => search_key_effect_exec(self.show_completion, key, mods),
            Focus::List => list_key_effect_exec(self.current_tab, key, mods),
            Focus::Inspector => inspector_key_effect_exec(self.current_tab, key, mods),
            Focus::CopilotChat => chat_key_effect_exec(key, mods),
        }
    }
}

/// The tab under a click at (`col`, `row`) in the tab bar at (`x`, `y`) of size
/// `w`×`h`: the bar's inside (without its one-cell border) is split into four equal
/// parts, a click past the last part counting for the last tab. None outside the bar
/// or when it is too narrow.
pub open spec fn tab_at_click_spec(x: u16, y: u16, w: u16, h: u16, col: u16, row: u16) -> Option<usize> {
    if col >= x && col < x + w && row >= y && row < y + h {
        let inner_w = if w >= 2 { w - 2 } else { 0 };
        if inner_w >= 4 {
            let tab_width = inner_w / 4;
            let rel = if col >= x + 1 { col - (x + 1) } else { 0 };
            let idx = rel / tab_width;
            Some((if idx > 3 { 3 } else { idx }) as usize)
        } else {
            None
        }
    } else {
        None
    }
}

/// The tab under a click in the tab bar (see [`tab_at_click_spec`]).
pub fn tab_at_click(x: u16, y: u16, w: u16, h: u16, col: u16, row: u16) -> (r: Option<usize>)
    ensures
        r == tab_at_click_spec(x, y, w, h, col, row),
{
    let (x, y, w, h, col, row) = (x as u32, y as u32, w as u32, h as u32, col as u32, row as u32);
    if col >= x && col < x + w && row >= y && row < y + h {
        let inner_w = if w >= 2 {
            w - 2
        } else {
            0
        };
        if inner_w >= 4 {
            let tab_width = inner_w / 4;
            let rel = if col >= x + 1 {
                col - (x + 1)
            } else {
                0
            };
            let idx = rel / tab_width;
            Some(
                if idx > 3 {
                    3
                } else {
                    idx as usize
                },
            )
        } else {
            None
        }
    } else {
        None
    }
}

/// The state after a qualified-path search whose crate had to be analyzed first:
/// the crate selected with the analysis result, its items filtered by the rest of
/// the path, the list filtered and focused.
#[verifier::opaque]
pub open spec fn path_search_completed(
    old: App,
    new: App,
    name: Seq<char>,
    found: Option<(InstalledCrate, Result<Vec<AnalyzedItem>, String>)>,
    rest: String,
) -> bool {
    &&& new.focus == Focus::List
    &&& exists|selected: App, narrowed: App|
        #![trigger crate_selected(old, selected, name, found), installed_filter_result(App { search_input: rest, ..selected }, narrowed)]
        crate_selected(old, selected, name, found) && installed_filter_result(
            App { search_input: rest, ..selected },
            narrowed,
        ) && filter_result(narrowed, App { focus: narrowed.focus, ..new })
}

proof fn lemma_path_search_completed(
    old: App,
    selected: App,
    narrowed: App,
    new: App,
    name: Seq<char>,
    found: Option<(InstalledCrate, Result<Vec<AnalyzedItem>, String>)>,
    rest: String,
)
    requires
        crate_selected(old, selected, name, found),
        installed_filter_result(App { search_input: rest, ..selected }, narrowed),
        filter_result(narrowed, App { focus: narrowed.focus, ..new }),
        new.focus == Focus::List,
    ensures
        path_search_completed(old, new, name, found, rest),
{
    reveal(path_search_completed);
}

impl App {
    /// Enters the installed crate `name` with the result of analyzing it (see
    /// [`crate_selected`]) and selects the first row.
    pub fn enter_installed_crate(
        &mut self,
        name: &str,
        found: Option<(InstalledCrate, Result<Vec<AnalyzedItem>, String>)>,
    )
        ensures
            exists|selected: App|
                #![trigger crate_selected(*old(self), selected, name@, found)]
                crate_selected(*old(self), selected, name@, found) && *final(self) == (App {
                    list_state: ListState { selected: Some(0usize) },
                    ..selected
                }),
    {
        let ghost before = *self;
        let ghost f = found;
        self.select_installed_crate(name, found);
        let ghost selected = *self;
        self.list_state.select(Some(0));
        assert(crate_selected(before, selected, name@, f));
    }

    /// Finishes a qualified-path search whose crate had to be analyzed first: selects
    /// it with the analysis result, filters its items by the rest of the path, filters
    /// the list and focuses it (see [`path_search_completed`]).
    pub fn complete_path_search(
        &mut self,
        name: &str,
        found: Option<(InstalledCrate, Result<Vec<AnalyzedItem>, String>)>,
        rest: String,
    )
        ensures
            path_search_completed(*old(self), *final(self), name@, found, rest),
    {
        let ghost before = *self;
        let ghost f = found;
        let ghost r = rest;
        self.select_installed_crate(name, found);
        let ghost selected = *self;
        self.finish_qualified_search(rest);
        let ghost narrowed = *self;
        self.filter_items();
        self.focus = Focus::List;
        proof {
            lemma_path_search_completed(before, selected, narrowed, *self, name@, f, r);
        }
    }

    /// Reports whether the browser opened the page `url` of crate `name`.
    pub fn report_crate_opened(&mut self, name: &str, url: &str, opened: bool)
        ensures
            *final(self) == (App { status_message: final(self).status_message, ..*old(self) }),
            final(self).status_message@ == if opened {
                "Opened "@ + name@ + " in browser"@
            } else {
                "Failed to open "@ + url@
            },
    {
        if opened {
            let mut status = String::from_str("Opened ");
            status.append(name);
            status.append(" in browser");
            self.status_message = status;
        } else {
            let mut status = String::from_str("Failed to open ");
            status.append(url);
            self.status_message = status;
        }
    }

    /// Switches to `tab` (as a click on the tab bar does) with the first row selected,
    /// and filters again. The result is none when `tab` is already shown, otherwise
    /// whether the installed crates must now be scanned.
    pub fn select_tab(&mut self, tab: Tab) -> (scan: Option<bool>)
        ensures
            tab == old(self).current_tab ==> scan is None && *final(self) == *old(self),
            tab != old(self).current_tab ==> filter_result(
                App {
                    current_tab: tab,
                    list_state: ListState { selected: Some(0usize) },
                    ..*old(self)
                },
                *final(self),
            ) && scan == Some(tab == Tab::Crates && old(self).installed_crates_list@.len() == 0),
    {
        if self.current_tab == tab {
            return None;
        }
        let scan = tab == Tab::Crates && self.installed_crates_list.len() == 0;
        self.current_tab = tab;
        self.list_state.select(Some(0));
        self.filter_items();
        Some(scan)
    }
}

/// The effects on the Copilot chat.
pub open spec fn chat_effect(e: KeyEffect) -> bool {
    matches!(e, KeyEffect::ChatScroll(..) | KeyEffect::ChatType(..) | KeyEffect::ChatBackspace | KeyEffect::ChatSubmit | KeyEffect::ToggleChat | KeyEffect::SelectItemHint)
}

/// The effects on overlays, shortcuts and tabs.
pub open spec fn overlay_effect(e: KeyEffect) -> bool {
    matches!(e, KeyEffect::Nothing | KeyEffect::Quit | KeyEffect::ToggleHelp | KeyEffect::HideHelp | KeyEffect::CycleTheme | KeyEffect::ToggleSettings | KeyEffect::OpenLink(..) | KeyEffect::HideCompletion | KeyEffect::ClearInstalledCrate | KeyEffect::ClearSearch | KeyEffect::SwitchTab(..))
}

/// The effects on the search bar and focus.
pub open spec fn search_effect(e: KeyEffect) -> bool {
    matches!(e, KeyEffect::SearchChar(..) | KeyEffect::SearchBackspace | KeyEffect::NextCompletion | KeyEffect::PrevCompletion | KeyEffect::SetFocus(..) | KeyEffect::NextFocus | KeyEffect::PrevFocus | KeyEffect::SelectCompletion | KeyEffect::CompleteAndNextFocus | KeyEffect::SubmitSearch)
}

/// The effects on the list and the inspector.
pub open spec fn list_effect(e: KeyEffect) -> bool {
    matches!(e, KeyEffect::NextItem | KeyEffect::PrevItem | KeyEffect::NextItems(..) | KeyEffect::PrevItems(..) | KeyEffect::OpenListEntry | KeyEffect::OpenCrate(..) | KeyEffect::ListLeft | KeyEffect::FirstRow | KeyEffect::LastRow | KeyEffect::InspectorScroll(..))
}

fn chat_effect_exec(e: KeyEffect) -> (b: bool)
    ensures
        b == chat_effect(e),
{
    match e {
        KeyEffect::ChatScroll(..) | KeyEffect::ChatType(..) | KeyEffect::ChatBackspace | KeyEffect::ChatSubmit | KeyEffect::ToggleChat | KeyEffect::SelectItemHint => true,
        _ => false,
    }
}

fn overlay_effect_exec(e: KeyEffect) -> (b: bool)
    ensures
        b == overlay_effect(e),
{
    match e {
        KeyEffect::Nothing | KeyEffect::Quit | KeyEffect::ToggleHelp | KeyEffect::HideHelp | KeyEffect::CycleTheme | KeyEffect::ToggleSettings | KeyEffect::OpenLink(..) | KeyEffect::HideCompletion | KeyEffect::ClearInstalledCrate | KeyEffect::ClearSearch | KeyEffect::SwitchTab(..) => true,
        _ => false,
    }
}

fn search_effect_exec(e: KeyEffect) -> (b: bool)
    ensures
        b == search_effect(e),
{
    match e {
        KeyEffect::SearchChar(..) | KeyEffect::SearchBackspace | KeyEffect::NextCompletion | KeyEffect::PrevCompletion | KeyEffect::SetFocus(..) | KeyEffect::NextFocus | KeyEffect::PrevFocus | KeyEffect::SelectCompletion | KeyEffect::CompleteAndNextFocus | KeyEffect::SubmitSearch => true,
        _ => false,
    }
}

proof fn lemma_search_submitted_plain(old: App, new: App)
    requires
        !browsing_installed_crate(old),
        new.focus == Focus::List,
        filter_result(old, App { focus: old.focus, ..new }),
    ensures
        search_submitted(old, new, KeyAction::Handled),
{
    reveal(search_submitted);
}

proof fn lemma_search_submitted_select(
    old: App,
    searched: App,
    r: QualifiedSearch,
    name: String,
    rest: String,
)
    requires
        browsing_installed_crate(old),
        qualified_search_result(old, searched, r),
        r == (QualifiedSearch::Crate { name, select: true, rest }),
    ensures
        search_submitted(old, searched, KeyAction::CompletePathSearch { name, rest }),
{
    reveal(search_submitted);
}

proof fn lemma_search_submitted_other(old: App, searched: App, r: QualifiedSearch, new: App)
    requires
        browsing_installed_crate(old),
        qualified_search_result(old, searched, r),
        !(r matches QualifiedSearch::Crate { select, .. } && select),
        filter_result(searched, App { focus: searched.focus, ..new }),
        new.focus == Focus::List,
    ensures
        search_submitted(old, new, KeyAction::Handled),
{
    reveal(search_submitted);
}

impl App {
    fn submit_search(&mut self) -> (action: KeyAction)
        ensures
            search_submitted(*old(self), *final(self), action),
    {
        let ghost before = *self;
        if !(self.current_tab == Tab::Crates && self.selected_installed_crate.is_some()) {
            self.filter_items();
            self.focus = Focus::List;
            proof {
                lemma_search_submitted_plain(before, *self);
            }
            return KeyAction::Handled;
        }
        let r = self.search_qualified_path();
        let ghost searched = *self;
        let ghost gr = r;
        match r {
            QualifiedSearch::Crate { name, select, rest } => {
                if select {
                    proof {
                        lemma_search_submitted_select(before, searched, gr, name, rest);
                    }
                    return KeyAction::CompletePathSearch { name, rest };
                }
                self.filter_items();
                self.focus = Focus::List;
                proof {
                    lemma_search_submitted_other(before, searched, gr, *self);
                }
                KeyAction::Handled
            },
            _ => {
                self.filter_items();
                self.focus = Focus::List;
                proof {
                    lemma_search_submitted_other(before, searched, gr, *self);
                }
                KeyAction::Handled
            },
        }
    }

    fn complete_then_focus(&mut self)
        ensures
            completed_then_focused(*old(self), *final(self)),
    {
        let ghost before = *self;
        self.select_completion();
        let ghost taken = *self;
        self.next_focus();
        proof {
            reveal(completed_then_focused);
            assert(completion_taken(before, taken));
        }
    }

    fn move_rows_down(&mut self, n: usize)
        requires
            old(self).list_state.selected matches Some(i) ==> i < usize::MAX,
        ensures
            current_list_len(*old(self)) == 0 ==> *final(self) == *old(self),
            current_list_len(*old(self)) > 0 ==> *final(self) == (App {
                list_state: ListState {
                    selected: next_row_times(
                        old(self).list_state.selected,
                        current_list_len(*old(self)),
                        n as nat,
                    ),
                },
                ..*old(self)
            }),
    {
        let ghost before = *self;
        let ghost len = current_list_len(before);
        let _ = self.get_current_list_len();
        let mut k: usize = 0;
        while k < n
            invariant
                k <= n,
                len == current_list_len(before),
                len <= usize::MAX,
                self.list_state.selected matches Some(i) ==> i < usize::MAX,
                len == 0 ==> *self == before,
                len > 0 ==> *self == (App {
                    list_state: ListState {
                        selected: next_row_times(before.list_state.selected, len, k as nat),
                    },
                    ..before
                }),
            decreases n - k,
        {
            let ghost prev = self.list_state.selected;
            self.next_item();
            proof {
                if len > 0 {
                    if let Some(i) = prev {
                        assert(((i + 1) % (len as int)) < len) by (nonlinear_arith)
                            requires
                                len > 0,
                        ;
                    }
                }
            }
            k = k + 1;
        }
    }

    fn move_rows_up(&mut self, n: usize)
        ensures
            current_list_len(*old(self)) == 0 ==> *final(self) == *old(self),
            current_list_len(*old(self)) > 0 ==> *final(self) == (App {
                list_state: ListState {
                    selected: prev_row_times(
                        old(self).list_state.selected,
                        current_list_len(*old(self)),
                        n as nat,
                    ),
                },
                ..*old(self)
            }),
    {
        let ghost before = *self;
        let ghost len = current_list_len(before);
        let mut k: usize = 0;
        while k < n
            invariant
                k <= n,
                len == current_list_len(before),
                len == 0 ==> *self == before,
                len > 0 ==> *self == (App {
                    list_state: ListState {
                        selected: prev_row_times(before.list_state.selected, len, k as nat),
                    },
                    ..before
                }),
            decreases n - k,
        {
            self.prev_item();
            k = k + 1;
        }
    }

    fn open_list_entry(&mut self) -> (action: KeyAction)
        ensures
            list_entry_opened(*old(self), *final(self), action),
    {
        if self.current_tab == Tab::Crates && self.selected_installed_crate.is_none() {
            match self.selected_dependency_name() {
                Some(name) => {
                    let is_root = self.dependency_tree.len() > 0 && self.dependency_tree[0].0 == name;
                    if !is_root {
                        return KeyAction::EnterInstalledCrate(name);
                    }
                },
                None => {},
            }
        }
        self.focus = Focus::Inspector;
        KeyAction::Handled
    }

    fn request_crate_page(&self, crates_io: bool) -> (action: KeyAction)
        ensures
            crate_page_requested(*self, *self, action, crates_io),
    {
        match self.selected_crate_name_for_display() {
            Some(name) => {
                let url = crate_url_of(name.as_str(), crates_io);
                KeyAction::OpenCrate { name, url }
            },
            None => KeyAction::Handled,
        }
    }

    fn apply_chat_effect(&mut self, effect: KeyEffect, inspector_scroll: &mut usize) -> (action:
        KeyAction)
        requires
            chat_effect(effect),
            old(self).list_state.selected matches Some(i) ==> i < usize::MAX,
            old(self).completion_selected < usize::MAX,
        ensures
            effect_applied(
                effect,
                *old(self),
                *final(self),
                *old(inspector_scroll),
                *final(inspector_scroll),
                action,
            ),
    {
        match effect {
            KeyEffect::ChatScroll(m) => {
                self.copilot_chat_scroll = scroll_by(self.copilot_chat_scroll, m);
                KeyAction::Handled
            },
            KeyEffect::ChatType(c) => {
                self.focus = Focus::CopilotChat;
                push_char(&mut self.copilot_chat_input, c);
                KeyAction::Handled
            },
            KeyEffect::ChatBackspace => {
                self.focus = Focus::CopilotChat;
                let _ = pop_char(&mut self.copilot_chat_input);
                KeyAction::Handled
            },
            KeyEffect::ChatSubmit => {
                self.focus = Focus::CopilotChat;
                match self.submit_copilot_message() {
                    Some(p) => KeyAction::AskCopilot(p),
                    None => KeyAction::Handled,
                }
            },
            KeyEffect::ToggleChat => {
                self.toggle_copilot_chat();
                KeyAction::Handled
            },
            KeyEffect::SelectItemHint => {
                self.status_message = String::from_str(
                    "Select an item in the list to ask Copilot about it",
                );
                KeyAction::Handled
            },
            _ => KeyAction::Handled,
        }
    }

    fn apply_overlay_effect(&mut self, effect: KeyEffect, inspector_scroll: &mut usize) -> (action:
        KeyAction)
        requires
            overlay_effect(effect),
            old(self).list_state.selected matches Some(i) ==> i < usize::MAX,
            old(self).completion_selected < usize::MAX,
        ensures
            effect_applied(
                effect,
                *old(self),
                *final(self),
                *old(inspector_scroll),
                *final(inspector_scroll),
                action,
            ),
    {
        match effect {
            KeyEffect::Nothing => KeyAction::Handled,
            KeyEffect::Quit => {
                self.should_quit = true;
                KeyAction::Handled
            },
            KeyEffect::ToggleHelp => {
                self.toggle_help();
                KeyAction::Handled
            },
            KeyEffect::HideHelp => {
                self.show_help = false;
                KeyAction::Handled
            },
            KeyEffect::CycleTheme => KeyAction::CycleTheme,
            KeyEffect::ToggleSettings => {
                self.toggle_settings();
                KeyAction::Handled
            },
            KeyEffect::OpenLink(l) => KeyAction::OpenUrl(String::from_str(link_url_of(l))),
            KeyEffect::HideCompletion => {
                self.show_completion = false;
                KeyAction::Handled
            },
            KeyEffect::ClearInstalledCrate => {
                self.clear_installed_crate();
                KeyAction::Handled
            },
            KeyEffect::ClearSearch => {
                self.clear_search();
                KeyAction::Handled
            },
            KeyEffect::SwitchTab(t) => {
                let scan = t == Tab::Crates && self.installed_crates_list.len() == 0;
                self.current_tab = t;
                self.list_state.select(Some(0));
                self.filter_items();
                KeyAction::SwitchedTab { scan }
            },
            _ => KeyAction::Handled,
        }
    }

    fn apply_search_effect(&mut self, effect: KeyEffect, inspector_scroll: &mut usize) -> (action:
        KeyAction)
        requires
            search_effect(effect),
            old(self).list_state.selected matches Some(i) ==> i < usize::MAX,
            old(self).completion_selected < usize::MAX,
        ensures
            effect_applied(
                effect,
                *old(self),
                *final(self),
                *old(inspector_scroll),
                *final(inspector_scroll),
                action,
            ),
    {
        match effect {
            KeyEffect::SearchChar(c) => {
                self.on_char(c);
                KeyAction::Handled
            },
            KeyEffect::SearchBackspace => {
                self.on_backspace();
                KeyAction::Handled
            },
            KeyEffect::NextCompletion => {
                self.next_completion();
                KeyAction::Handled
            },
            KeyEffect::PrevCompletion => {
                self.prev_completion();
                KeyAction::Handled
            },
            KeyEffect::SetFocus(f) => {
                self.focus = f;
                KeyAction::Handled
            },
            KeyEffect::NextFocus => {
                self.next_focus();
                KeyAction::Handled
            },
            KeyEffect::PrevFocus => {
                self.prev_focus();
                KeyAction::Handled
            },
            KeyEffect::SelectCompletion => {
                self.select_completion();
                KeyAction::Handled
            },
            KeyEffect::CompleteAndNextFocus => {
                self.complete_then_focus();
                KeyAction::Handled
            },
            KeyEffect::SubmitSearch => self.submit_search(),
            _ => KeyAction::Handled,
        }
    }

    fn apply_list_effect(&mut self, effect: KeyEffect, inspector_scroll: &mut usize) -> (action:
        KeyAction)
        requires
            list_effect(effect),
            old(self).list_state.selected matches Some(i) ==> i < usize::MAX,
            old(self).completion_selected < usize::MAX,
        ensures
            effect_applied(
                effect,
                *old(self),
                *final(self),
                *old(inspector_scroll),
                *final(inspector_scroll),
                action,
            ),
    {
        match effect {
            KeyEffect::NextItem => {
                self.next_item();
                KeyAction::Handled
            },
            KeyEffect::PrevItem => {
                self.prev_item();
                KeyAction::Handled
            },
            KeyEffect::NextItems(n) => {
                self.move_rows_down(n);
                KeyAction::Handled
            },
            KeyEffect::PrevItems(n) => {
                self.move_rows_up(n);
                KeyAction::Handled
            },
            KeyEffect::OpenListEntry => self.open_list_entry(),
            KeyEffect::OpenCrate(crates_io) => self.request_crate_page(crates_io),
            KeyEffect::ListLeft => {
                if self.current_tab == Tab::Crates && self.selected_installed_crate.is_some() {
                    self.clear_installed_crate();
                } else {
                    self.focus = Focus::Search;
                }
                KeyAction::Handled
            },
            KeyEffect::FirstRow => {
                if self.get_current_list_len() > 0 {
                    self.list_state.select(Some(0));
                }
                KeyAction::Handled
            },
            KeyEffect::LastRow => {
                let len = self.get_current_list_len();
                if len > 0 {
                    self.list_state.select(Some(len - 1));
                }
                KeyAction::Handled
            },
            KeyEffect::InspectorScroll(m) => {
                *inspector_scroll = scroll_by(*inspector_scroll, m);
                KeyAction::Handled
            },
            _ => KeyAction::Handled,
        }
    }

    /// Carries out a key's effect on the state and the inspector's scroll position,
    /// handing back the outside work it needs (see [`effect_applied`]).
    pub fn apply_key_effect(&mut self, effect: KeyEffect, inspector_scroll: &mut usize) -> (action:
        KeyAction)
        requires
            old(self).list_state.selected matches Some(i) ==> i < usize::MAX,
            old(self).completion_selected < usize::MAX,
        ensures
            effect_applied(
                effect,
                *old(self),
                *final(self),
                *old(inspector_scroll),
                *final(inspector_scroll),
                action,
            ),
    {
        if chat_effect_exec(effect) {
            self.apply_chat_effect(effect, inspector_scroll)
        } else if overlay_effect_exec(effect) {
            self.apply_overlay_effect(effect, inspector_scroll)
        } else if search_effect_exec(effect) {
            self.apply_search_effect(effect, inspector_scroll)
        } else {
            self.apply_list_effect(effect, inspector_scroll)
        }
    }

    /// Handles a key press: decides its effect ([`key_effect_of`]) and carries it out
    /// ([`effect_applied`]), handing back the outside work it needs.
    pub fn handle_key_event(&mut self, key: Key, mods: Modifiers, inspector_scroll: &mut usize) -> (action:
        KeyAction)
        requires
            old(self).list_state.selected matches Some(i) ==> i < usize::MAX,
            old(self).completion_selected < usize::MAX,
        ensures
            effect_applied(
                key_effect_of(*old(self), key, mods),
                *old(self),
                *final(self),
                *old(inspector_scroll),
                *final(inspector_scroll),
                action,
            ),
    {
        let effect = self.key_effect(key, mods);
        self.apply_key_effect(effect, inspector_scroll)
    }
}

/// A scroll position after a move (saturating at both ends).
pub fn scroll_by(v: usize, m: ScrollMove) -> (r: usize)
    ensures
        r == scrolled(v, m),
{
    match m {
        ScrollMove::Down(n) => v.saturating_add(n),
        ScrollMove::Up(n) => v.saturating_sub(n),
        ScrollMove::Top => 0,
    }
}

} // verus!
