//! How keyboard input on the search bar and the tab bar changes the application state,
//! and what the current list shows.

use vstd::prelude::*;

use crate::analyzer::AnalyzedItem;
use crate::text::{pop_char, push_char};
use crate::ui::app::types::{tab_after, tab_before};
use crate::ui::app::{Focus, Tab};
use super::state::{browsing_installed_crate, filter_result, App, ListState};

verus! {

/// Whether completions are shown for the search input: it holds at least two bytes
/// and the Crates tab is not browsing an installed crate.
pub open spec fn completion_shown(app: App) -> bool {
    vstd::utf8::encode_utf8(app.search_input@).len() >= 2 && !browsing_installed_crate(app)
}

/// The item at row `sel` of the list `listed` (positions into `items`).
pub open spec fn item_at_row(sel: Option<usize>, listed: Seq<usize>, items: Seq<AnalyzedItem>) -> Option<
    AnalyzedItem,
> {
    match sel {
        Some(i) => if i < listed.len() && listed[i as int] < items.len() {
            Some(items[listed[i as int] as int])
        } else {
            None
        },
        None => None,
    }
}

/// The selected item: from the installed crate being browsed, none on the Crates tab's
/// dependency list, otherwise from the tab's list.
pub open spec fn selected_item_of(app: App) -> Option<AnalyzedItem> {
    if browsing_installed_crate(app) {
        item_at_row(app.list_state.selected, app.installed_crate_filtered@, app.installed_crate_items@)
    } else if app.current_tab == Tab::Crates {
        None
    } else {
        item_at_row(app.list_state.selected, app.filtered_items@, app.items@)
    }
}

/// The items at the positions `listed`, skipping positions past the end of `items`.
pub open spec fn listed_items(listed: Seq<usize>, items: Seq<AnalyzedItem>) -> Seq<AnalyzedItem>
    decreases listed.len(),
{
    if listed.len() == 0 {
        Seq::empty()
    } else {
        let rest = listed_items(listed.drop_last(), items);
        if listed.last() < items.len() {
            rest.push(items[listed.last() as int])
        } else {
            rest
        }
    }
}

/// The items of the current list: those of the installed crate being browsed, or those
/// of the tab.
pub open spec fn current_items(app: App) -> Seq<AnalyzedItem> {
    if browsing_installed_crate(app) {
        listed_items(app.installed_crate_filtered@, app.installed_crate_items@)
    } else {
        listed_items(app.filtered_items@, app.items@)
    }
}

/// The panel focused after the Copilot chat panel was opened (`open`) or closed: the
/// chat when it opens with an item selected; the inspector when it closes while
/// focused.
pub open spec fn focus_after_chat_toggle(focus: Focus, open: bool, has_item: bool) -> Focus {
    if open && has_item {
        Focus::CopilotChat
    } else if !open && focus == Focus::CopilotChat {
        Focus::Inspector
    } else {
        focus
    }
}

/// The state after taking the selected completion into the search input (nothing
/// changes when no completion is selected).
pub open spec fn completion_taken(old: App, new: App) -> bool {
    &&& old.completion_selected >= old.filtered_candidates@.len() ==> new == old
    &&& old.completion_selected < old.filtered_candidates@.len() ==> filter_result(
        App {
            search_input: old.filtered_candidates@[old.completion_selected as int].primary,
            show_completion: false,
            ..old
        },
        new,
    )
}

/// The state after typing `c` into the search input.
pub open spec fn typed_into_search(old: App, new: App, c: char) -> bool {
    &&& new.search_input@ == old.search_input@.push(c)
    &&& filter_result(
        App { search_input: new.search_input, ..old },
        App { show_completion: old.show_completion, ..new },
    )
    &&& new.show_completion == completion_shown(new)
}

/// The state after deleting the last character of the search input (if any).
pub open spec fn deleted_from_search(old: App, new: App) -> bool {
    &&& new.search_input@ == if old.search_input@.len() > 0 {
        old.search_input@.drop_last()
    } else {
        old.search_input@
    }
    &&& filter_result(
        App { search_input: new.search_input, ..old },
        App { show_completion: old.show_completion, ..new },
    )
    &&& new.show_completion == completion_shown(new)
}

/// The state after emptying the search input.
pub open spec fn search_cleared(old: App, new: App) -> bool {
    &&& new.search_input@.len() == 0
    &&& filter_result(App { search_input: new.search_input, show_completion: false, ..old }, new)
}

/// The state after opening or closing the Copilot chat panel.
pub open spec fn chat_toggled(old: App, new: App) -> bool {
    new == (App {
        copilot_chat_open: !old.copilot_chat_open,
        focus: focus_after_chat_toggle(
            old.focus,
            !old.copilot_chat_open,
            selected_item_of(old) is Some,
        ),
        ..old
    })
}

fn item_at<'a>(sel: Option<usize>, listed: &Vec<usize>, items: &'a Vec<AnalyzedItem>) -> (r:
    Option<&'a AnalyzedItem>)
    ensures
        match r {
            Some(it) => item_at_row(sel, listed@, items@) == Some(*it),
            None => item_at_row(sel, listed@, items@) is None,
        },
{
    match sel {
        Some(i) => {
            if i < listed.len() && listed[i] < items.len() {
                Some(&items[listed[i]])
            } else {
                None
            }
        },
        None => None,
    }
}

fn items_listed<'a>(listed: &Vec<usize>, items: &'a Vec<AnalyzedItem>) -> (r: Vec<&'a AnalyzedItem>)
    ensures
        r@.map_values(|x: &AnalyzedItem| *x) == listed_items(listed@, items@),
{
    let mut r: Vec<&AnalyzedItem> = Vec::new();
    let mut i: usize = 0;
    while i < listed.len()
        invariant
            i <= listed@.len(),
            r@.map_values(|x: &AnalyzedItem| *x) == listed_items(listed@.take(i as int), items@),
        decreases listed@.len() - i,
    {
        proof {
            let t = listed@.take(i + 1);
            assert(t.drop_last() =~= listed@.take(i as int));
            assert(t.last() == listed@[i as int]);
        }
        let p = listed[i];
        if p < items.len() {
            let ghost before = r@;
            r.push(&items[p]);
            proof {
                assert(r@.map_values(|x: &AnalyzedItem| *x) =~= before.map_values(
                    |x: &AnalyzedItem| *x,
                ).push(items@[p as int]));
            }
        }
        i = i + 1;
    }
    proof {
        assert(listed@.take(listed@.len() as int) =~= listed@);
    }
    r
}

impl App {
    /// The selected item: from the installed crate being browsed, or from the tab's
    /// list; none on the Crates tab's dependency list.
    pub fn selected_item(&self) -> (r: Option<&AnalyzedItem>)
        ensures
            match r {
                Some(it) => selected_item_of(*self) == Some(*it),
                None => selected_item_of(*self) is None,
            },
    {
        if self.current_tab == Tab::Crates && self.selected_installed_crate.is_some() {
            return item_at(
                self.list_state.selected(),
                &self.installed_crate_filtered,
                &self.installed_crate_items,
            );
        }
        if self.current_tab == Tab::Crates {
            return None;
        }
        item_at(self.list_state.selected(), &self.filtered_items, &self.items)
    }

    /// The items of the current list, in list order.
    pub fn get_filtered_items(&self) -> (r: Vec<&AnalyzedItem>)
        ensures
            r@.map_values(|x: &AnalyzedItem| *x) == current_items(*self),
    {
        if self.current_tab == Tab::Crates && self.selected_installed_crate.is_some() {
            items_listed(&self.installed_crate_filtered, &self.installed_crate_items)
        } else {
            items_listed(&self.filtered_items, &self.items)
        }
    }

    /// Takes the selected completion into the search input, hides the completions and
    /// filters again; nothing happens when no completion is selected.
    pub fn select_completion(&mut self)
        ensures
            completion_taken(*old(self), *final(self)),
    {
        if self.completion_selected < self.filtered_candidates.len() {
            let primary = self.filtered_candidates[self.completion_selected].primary.clone();
            self.search_input = primary;
            self.show_completion = false;
            self.filter_items();
        }
    }

    /// Types a character into the search input: filters again and shows completions
    /// once the input holds two bytes (not while browsing an installed crate).
    pub fn on_char(&mut self, c: char)
        ensures
            typed_into_search(*old(self), *final(self), c),
    {
        push_char(&mut self.search_input, c);
        self.filter_items();
        self.show_completion = self.search_input.as_str().as_bytes().len() >= 2 && !(
        self.current_tab == Tab::Crates && self.selected_installed_crate.is_some());
    }

    /// Deletes the last character of the search input (if any), filters again and
    /// shows completions as [`App::on_char`] does.
    pub fn on_backspace(&mut self)
        ensures
            deleted_from_search(*old(self), *final(self)),
    {
        let _ = pop_char(&mut self.search_input);
        self.filter_items();
        self.show_completion = self.search_input.as_str().as_bytes().len() >= 2 && !(
        self.current_tab == Tab::Crates && self.selected_installed_crate.is_some());
    }

    /// Empties the search input, hides the completions and filters again.
    pub fn clear_search(&mut self)
        ensures
            search_cleared(*old(self), *final(self)),
    {
        self.search_input = String::new();
        self.show_completion = false;
        self.filter_items();
    }

    /// Switches to the next tab with the first row selected and completions hidden,
    /// and filters again. The result says whether the installed crates must now be
    /// scanned (the Crates tab was entered and none are known yet).
    pub fn next_tab(&mut self) -> (scan: bool)
        ensures
            filter_result(
                App {
                    current_tab: tab_after(old(self).current_tab),
                    list_state: ListState { selected: Some(0usize) },
                    show_completion: false,
                    ..*old(self)
                },
                *final(self),
            ),
            scan == (final(self).current_tab == Tab::Crates
                && final(self).installed_crates_list@.len() == 0),
    {
        self.current_tab = self.current_tab.next();
        self.list_state.select(Some(0));
        self.show_completion = false;
        self.filter_items();
        self.current_tab == Tab::Crates && self.installed_crates_list.len() == 0
    }

    /// Switches to the previous tab, as [`App::next_tab`] does.
    pub fn prev_tab(&mut self) -> (scan: bool)
        ensures
            filter_result(
                App {
                    current_tab: tab_before(old(self).current_tab),
                    list_state: ListState { selected: Some(0usize) },
                    show_completion: false,
                    ..*old(self)
                },
                *final(self),
            ),
            scan == (final(self).current_tab == Tab::Crates
                && final(self).installed_crates_list@.len() == 0),
    {
        self.current_tab = self.current_tab.prev();
        self.list_state.select(Some(0));
        self.show_completion = false;
        self.filter_items();
        self.current_tab == Tab::Crates && self.installed_crates_list.len() == 0
    }

    /// Opens or closes the Copilot chat panel. Opening it with an item selected
    /// focuses the chat; closing it while the chat is focused focuses the inspector.
    pub fn toggle_copilot_chat(&mut self)
        ensures
            chat_toggled(*old(self), *final(self)),
    {
        self.copilot_chat_open = !self.copilot_chat_open;
        let has_item = self.selected_item().is_some();
        if self.copilot_chat_open && has_item {
            self.focus = Focus::CopilotChat;
        } else if !self.copilot_chat_open && self.focus == Focus::CopilotChat {
            self.focus = Focus::Inspector;
        }
    }
}


/// Typing a character into the search and deleting it gives back the search input.
pub proof fn lemma_type_then_delete(a: App, b: App, c: App, ch: char)
    requires
        typed_into_search(a, b, ch),
        deleted_from_search(b, c),
    ensures
        c.search_input@ == a.search_input@,
{
    assert(a.search_input@.push(ch).drop_last() =~= a.search_input@);
}

/// Opening and then closing the Copilot chat panel (or the reverse) leaves the panel
/// as it was.
pub proof fn lemma_chat_toggle_twice(a: App, b: App, c: App)
    requires
        chat_toggled(a, b),
        chat_toggled(b, c),
    ensures
        c.copilot_chat_open == a.copilot_chat_open,
        c.copilot_chat_messages == a.copilot_chat_messages,
        c.copilot_chat_input == a.copilot_chat_input,
{
}

} // verus!
