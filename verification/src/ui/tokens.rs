//! Shared sizes and decorations of the views.

use vstd::prelude::*;

use crate::ui::lines::{line3, line_view, span, span_str, TextLine, TextStyle};

verus! {

/// The arrow at the top of a scrollbar.
pub const SCROLLBAR_UP: &'static str = "↑";

/// The arrow at the bottom of a scrollbar.
pub const SCROLLBAR_DOWN: &'static str = "↓";

/// The width of the settings popup.
pub const OVERLAY_SETTINGS_W: u16 = 50;

/// The height of the settings popup.
pub const OVERLAY_SETTINGS_H: u16 = 12;

/// The width of the help popup.
pub const OVERLAY_HELP_W: u16 = 64;

/// The height of the help popup.
pub const OVERLAY_HELP_H: u16 = 32;

/// The height of the header.
pub const HEADER_HEIGHT: u16 = 4;

/// The height of the status bar.
pub const STATUS_HEIGHT: u16 = 1;

/// The margin around the body.
pub const BODY_MARGIN: u16 = 1;

/// The smallest height of the body.
pub const MIN_BODY_HEIGHT: u16 = 10;

/// The most completions the dropdown shows at once.
pub const COMPLETION_MAX_VISIBLE: usize = 10;

/// The rule drawn after a section title.
pub const SECTION_DIVIDER: &'static str = "─────────────────";

/// The narrowest terminal the view is laid out for.
pub const MIN_WIDTH: u16 = 60;

/// The shortest terminal the view is laid out for.
pub const MIN_HEIGHT: u16 = 20;

/// A section header: an accent marker, the title in bold accent, and a muted rule.
pub open spec fn section_header_text(title: Seq<char>) -> Seq<(Seq<char>, TextStyle)> {
    seq![
        ("  ▸ "@, TextStyle::Accent),
        (title, TextStyle::AccentBold),
        (" ─────────────────"@, TextStyle::Muted),
    ]
}

/// The header line of a section titled `title`.
pub fn section_header(title: &str) -> (l: TextLine)
    ensures
        line_view(l) == section_header_text(title@),
{
    let mut rule = String::from_str(" ");
    rule.append(SECTION_DIVIDER);
    proof {
        reveal_strlit("  ▸ ");
        reveal_strlit(" ");
        reveal_strlit("─────────────────");
        reveal_strlit(" ─────────────────");
        assert(rule@ =~= " ─────────────────"@);
    }
    let l = line3(
        span_str("  ▸ ", TextStyle::Accent),
        span(String::from_str(title), TextStyle::AccentBold),
        span(rule, TextStyle::Muted),
    );
    assert(line_view(l) =~= section_header_text(title@));
    l
}

} // verus!
