//! Application settings. Reading and writing the configuration file happens
//! outside the library; this module holds the settings and their defaults.

use vstd::prelude::*;

verus! {

/// All settings.
#[derive(Debug, Clone)]
pub struct Settings {
    pub ui: UiSettings,
    pub analyzer: AnalyzerSettings,
    pub keybindings: KeybindingSettings,
}

/// Display settings.
#[derive(Debug, Clone)]
pub struct UiSettings {
    pub theme: String,
    pub show_line_numbers: bool,
    pub vim_mode: bool,
    pub tab_width: usize,
    pub wrap_text: bool,
    pub accent_color: String,
}

/// Source analysis settings.
#[derive(Debug, Clone)]
pub struct AnalyzerSettings {
    pub include_private: bool,
    pub include_tests: bool,
    pub max_depth: usize,
}

/// Key bindings, by action.
#[derive(Debug, Clone)]
pub struct KeybindingSettings {
    pub quit: String,
    pub search: String,
    pub help: String,
    pub next_tab: String,
    pub prev_tab: String,
    pub select: String,
}

/// The default settings.
pub open spec fn is_default_settings(s: Settings) -> bool {
    &&& s.ui.theme@ == "default"@
    &&& s.ui.show_line_numbers
    &&& !s.ui.vim_mode
    &&& s.ui.tab_width == 4
    &&& !s.ui.wrap_text
    &&& s.ui.accent_color@ == "#4EBF71"@
    &&& s.analyzer.include_private
    &&& !s.analyzer.include_tests
    &&& s.analyzer.max_depth == 10
    &&& s.keybindings.quit@ == "q"@
    &&& s.keybindings.search@ == "/"@
    &&& s.keybindings.help@ == "?"@
    &&& s.keybindings.next_tab@ == "Tab"@
    &&& s.keybindings.prev_tab@ == "Shift+Tab"@
    &&& s.keybindings.select@ == "Enter"@
}

impl Default for Settings {
    fn default() -> (s: Self)
        ensures
            is_default_settings(s),
    {
        Settings {
            ui: UiSettings {
                theme: String::from_str("default"),
                show_line_numbers: true,
                vim_mode: false,
                tab_width: 4,
                wrap_text: false,
                accent_color: String::from_str("#4EBF71"),
            },
            analyzer: AnalyzerSettings { include_private: true, include_tests: false, max_depth: 10 },
            keybindings: KeybindingSettings {
                quit: String::from_str("q"),
                search: String::from_str("/"),
                help: String::from_str("?"),
                next_tab: String::from_str("Tab"),
                prev_tab: String::from_str("Shift+Tab"),
                select: String::from_str("Enter"),
            },
        }
    }
}

} // verus!
