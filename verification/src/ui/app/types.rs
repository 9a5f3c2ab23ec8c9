//! The tabs of the main view and the panels that can hold the keyboard focus.

use vstd::prelude::*;

verus! {

/// A tab of the main view.
#[derive(Debug, Clone, Copy, PartialEq, Eq, Structural)]
pub enum Tab {
    Types,
    Functions,
    Modules,
    Crates,
}

/// The panel that receives keyboard input.
#[derive(Debug, Clone, Copy, PartialEq, Eq, Structural)]
pub enum Focus {
    Search,
    List,
    Inspector,
    CopilotChat,
}

/// The position of a tab in the tab bar.
pub open spec fn tab_index(t: Tab) -> usize {
    match t {
        Tab::Types => 0,
        Tab::Functions => 1,
        Tab::Modules => 2,
        Tab::Crates => 3,
    }
}

/// The tab at a position of the tab bar; positions past the last tab select it.
pub open spec fn tab_at(i: usize) -> Tab {
    if i == 0 {
        Tab::Types
    } else if i == 1 {
        Tab::Functions
    } else if i == 2 {
        Tab::Modules
    } else {
        Tab::Crates
    }
}

/// The tab after `t` in the tab bar, wrapping from the last to the first.
pub open spec fn tab_after(t: Tab) -> Tab {
    tab_at(((tab_index(t) + 1) % 4) as usize)
}

/// The tab before `t` in the tab bar, wrapping from the first to the last.
pub open spec fn tab_before(t: Tab) -> Tab {
    tab_at(((tab_index(t) + 3) % 4) as usize)
}

/// The panel after `f` in the focus cycle search, list, inspector (and Copilot chat
/// when its panel is open).
pub open spec fn focus_after(f: Focus, chat_open: bool) -> Focus {
    match f {
        Focus::Search => Focus::List,
        Focus::List => Focus::Inspector,
        Focus::Inspector => if chat_open {
            Focus::CopilotChat
        } else {
            Focus::Search
        },
        Focus::CopilotChat => Focus::Search,
    }
}

/// The panel before `f` in the focus cycle.
pub open spec fn focus_before(f: Focus, chat_open: bool) -> Focus {
    match f {
        Focus::Search => if chat_open {
            Focus::CopilotChat
        } else {
            Focus::Inspector
        },
        Focus::List => Focus::Search,
        Focus::Inspector => Focus::List,
        Focus::CopilotChat => Focus::Inspector,
    }
}

impl Default for Tab {
    fn default() -> (t: Self)
        ensures
            t == Tab::Types,
    {
        Tab::Types
    }
}

impl Default for Focus {
    fn default() -> (f: Self)
        ensures
            f == Focus::Search,
    {
        Focus::Search
    }
}

impl Tab {
    /// The position of the tab in the tab bar.
    pub fn index(&self) -> (i: usize)
        ensures
            i == tab_index(*self),
    {
        match self {
            Tab::Types => 0,
            Tab::Functions => 1,
            Tab::Modules => 2,
            Tab::Crates => 3,
        }
    }

    /// The tab at a position of the tab bar.
    pub fn from_index(i: usize) -> (t: Tab)
        ensures
            t == tab_at(i),
    {
        if i == 0 {
            Tab::Types
        } else if i == 1 {
            Tab::Functions
        } else if i == 2 {
            Tab::Modules
        } else {
            Tab::Crates
        }
    }

    /// The next tab, wrapping from the last to the first.
    pub fn next(&self) -> (t: Tab)
        ensures
            t == tab_after(*self),
    {
        Tab::from_index((self.index() + 1) % 4)
    }

    /// The previous tab, wrapping from the first to the last.
    pub fn prev(&self) -> (t: Tab)
        ensures
            t == tab_before(*self),
    {
        Tab::from_index((self.index() + 3) % 4)
    }
}

impl Focus {
    /// The next panel in the focus cycle.
    pub fn next(&self, chat_open: bool) -> (f: Focus)
        ensures
            f == focus_after(*self, chat_open),
    {
        match self {
            Focus::Search => Focus::List,
            Focus::List => Focus::Inspector,
            Focus::Inspector => if chat_open {
                Focus::CopilotChat
            } else {
                Focus::Search
            },
            Focus::CopilotChat => Focus::Search,
        }
    }

    /// The previous panel in the focus cycle.
    pub fn prev(&self, chat_open: bool) -> (f: Focus)
        ensures
            f == focus_before(*self, chat_open),
    {
        match self {
            Focus::Search => if chat_open {
                Focus::CopilotChat
            } else {
                Focus::Inspector
            },
            Focus::List => Focus::Search,
            Focus::Inspector => Focus::List,
            Focus::CopilotChat => Focus::Inspector,
        }
    }
}

/// Moving to the next tab and back, or to the previous tab and forward, returns to
/// the same tab.
pub proof fn lemma_tab_next_prev(t: Tab)
    ensures
        tab_before(tab_after(t)) == t,
        tab_after(tab_before(t)) == t,
{
}

/// Moving focus forward and back returns to the same panel, for any panel reachable
/// in the cycle (Copilot chat only when its panel is open).
pub proof fn lemma_focus_next_prev(f: Focus, chat_open: bool)
    requires
        f == Focus::CopilotChat ==> chat_open,
    ensures
        focus_before(focus_after(f, chat_open), chat_open) == f,
{
}

} // verus!
