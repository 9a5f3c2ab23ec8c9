//! The overlays: where a popup goes, and the settings and help texts.

use vstd::prelude::*;

use crate::ui::lines::{blank, line1, line2, line3, lines_view, push_line, span_str, TextLine, TextStyle};

verus! {

/// A popup of at most `max_w`×`max_h` cells centred in the area at (`x`, `y`) of
/// size `w`×`h`, keeping two cells free on each side: (x, y, width, height).
pub open spec fn centered_popup(x: u16, y: u16, w: u16, h: u16, max_w: u16, max_h: u16) -> (
    u16,
    u16,
    u16,
    u16,
) {
    let avail_w: int = if w >= 4 { w - 4 } else { 0 };
    let avail_h: int = if h >= 4 { h - 4 } else { 0 };
    let pw: int = if max_w < avail_w { max_w as int } else { avail_w };
    let ph: int = if max_h < avail_h { max_h as int } else { avail_h };
    ((x + (w - pw) / 2) as u16, (y + (h - ph) / 2) as u16, pw as u16, ph as u16)
}

/// Where a popup of at most `max_w`×`max_h` cells goes in an area (see
/// [`centered_popup`]); the area must lie within the screen's coordinates.
pub fn popup_rect(x: u16, y: u16, w: u16, h: u16, max_w: u16, max_h: u16) -> (r: (u16, u16, u16, u16))
    requires
        x + w <= u16::MAX,
        y + h <= u16::MAX,
    ensures
        r == centered_popup(x, y, w, h, max_w, max_h),
{
    let avail_w = w.saturating_sub(4);
    let avail_h = h.saturating_sub(4);
    let pw = if max_w < avail_w { max_w } else { avail_w };
    let ph = if max_h < avail_h { max_h } else { avail_h };
    (x + (w - pw) / 2, y + (h - ph) / 2, pw, ph)
}

/// The settings popup: `t` cycles the theme.
pub open spec fn settings_text() -> Seq<Seq<(Seq<char>, TextStyle)>> {
    seq![
        seq![(" Settings "@, TextStyle::AccentBold)],
        Seq::empty(),
        seq![("Theme"@, TextStyle::Dim)],
        seq![("  Press "@, TextStyle::Plain), ("t"@, TextStyle::Accent), (" to cycle theme"@, TextStyle::Plain)],
        Seq::empty(),
        seq![("Press Esc or S to close"@, TextStyle::Muted)],
    ]
}

/// The lines of the settings popup.
pub fn settings_lines() -> (r: Vec<TextLine>)
    ensures
        lines_view(r@) == settings_text(),
{
    let mut r: Vec<TextLine> = Vec::new();
    push_line(&mut r, line1(span_str(" Settings ", TextStyle::AccentBold)));
    push_line(&mut r, blank());
    push_line(&mut r, line1(span_str("Theme", TextStyle::Dim)));
    push_line(
        &mut r,
        line3(
            span_str("  Press ", TextStyle::Plain),
            span_str("t", TextStyle::Accent),
            span_str(" to cycle theme", TextStyle::Plain),
        ),
    );
    push_line(&mut r, blank());
    push_line(&mut r, line1(span_str("Press Esc or S to close", TextStyle::Muted)));
    assert(lines_view(r@) =~= settings_text());
    r
}

/// The help popup's title and focus keys.
pub open spec fn help_keys_focus() -> Seq<Seq<(Seq<char>, TextStyle)>> {
    seq![
        seq![("⌨️  Keyboard Shortcuts"@, TextStyle::AccentBold)],
        Seq::empty(),
        seq![("Focus & panels"@, TextStyle::Dim)],
        seq![("  Tab        "@, TextStyle::Accent), ("Next panel (search → list → inspector)"@, TextStyle::Plain)],
        seq![("  Shift+Tab  "@, TextStyle::Accent), ("Previous panel"@, TextStyle::Plain)],
        seq![("  /          "@, TextStyle::Accent), ("Focus search"@, TextStyle::Plain)],
        seq![("  Esc        "@, TextStyle::Accent), ("Clear search / Back / Close popup"@, TextStyle::Plain)],
        Seq::empty(),
        seq![("List & inspector"@, TextStyle::Dim)],
    ]
}

/// The help popup's list and inspector keys.
pub open spec fn help_keys_list() -> Seq<Seq<(Seq<char>, TextStyle)>> {
    seq![
        seq![("  ↑/↓  j/k   "@, TextStyle::Accent), ("Move selection / Scroll inspector"@, TextStyle::Plain)],
        seq![("  Enter  →  l "@, TextStyle::Accent), ("Open item / Focus inspector"@, TextStyle::Plain)],
        seq![("  ←  h       "@, TextStyle::Accent), ("Back to list (e.g. exit crate view)"@, TextStyle::Plain)],
        seq![("  Home       "@, TextStyle::Accent), ("First item"@, TextStyle::Plain)],
        seq![("  G  End     "@, TextStyle::Accent), ("Last item"@, TextStyle::Plain)],
        seq![("  PgUp  PgDn  "@, TextStyle::Accent), ("Page up / down"@, TextStyle::Plain)],
        Seq::empty(),
        seq![("Tabs"@, TextStyle::Dim)],
        seq![("  1  2  3  4  "@, TextStyle::Accent), ("Types · Functions · Modules · Crates"@, TextStyle::Plain)],
        Seq::empty(),
    ]
}

/// The help popup's tab and Crates tab keys.
pub open spec fn help_keys_tabs() -> Seq<Seq<(Seq<char>, TextStyle)>> {
    seq![
        seq![("Crates tab only"@, TextStyle::Dim)],
        seq![("  [o]        "@, TextStyle::Accent), ("Open docs.rs in browser"@, TextStyle::Plain)],
        seq![("  [c]        "@, TextStyle::Accent), ("Open crates.io in browser"@, TextStyle::Plain)],
        Seq::empty(),
        seq![("Other"@, TextStyle::Dim)],
        seq![("  C          "@, TextStyle::Accent), ("Open Copilot chat (ask about current item)"@, TextStyle::Plain)],
        seq![("  t          "@, TextStyle::Accent), ("Cycle theme"@, TextStyle::Plain)],
        seq![("  S          "@, TextStyle::Accent), ("Settings overlay"@, TextStyle::Plain)],
        seq![("  ?          "@, TextStyle::Accent), ("Toggle this help"@, TextStyle::Plain)],
        seq![("  q  Esc     "@, TextStyle::Accent), ("Quit"@, TextStyle::Plain)],
    ]
}

/// The help popup's other keys and links.
pub open spec fn help_keys_other() -> Seq<Seq<(Seq<char>, TextStyle)>> {
    seq![
        Seq::empty(),
        seq![("Links"@, TextStyle::Dim)],
        seq![("  g          "@, TextStyle::Accent), ("Open GitHub repo in browser"@, TextStyle::Plain)],
        seq![("  s          "@, TextStyle::Accent), ("Open Sponsor page in browser"@, TextStyle::Plain)],
        Seq::empty(),
        seq![("Press any key to close"@, TextStyle::Muted)],
    ]
}

/// The help popup: every key binding, by topic.
pub open spec fn help_text() -> Seq<Seq<(Seq<char>, TextStyle)>> {
    help_keys_focus() + help_keys_list() + help_keys_tabs() + help_keys_other()
}

fn help_keys_focus_lines() -> (r: Vec<TextLine>)
    ensures
        lines_view(r@) == help_keys_focus(),
{
    let mut r: Vec<TextLine> = Vec::new();
    push_line(&mut r, line1(span_str("⌨️  Keyboard Shortcuts", TextStyle::AccentBold)));
    push_line(&mut r, blank());
    push_line(&mut r, line1(span_str("Focus & panels", TextStyle::Dim)));
    push_line(&mut r, line2(span_str("  Tab        ", TextStyle::Accent), span_str("Next panel (search → list → inspector)", TextStyle::Plain)));
    push_line(&mut r, line2(span_str("  Shift+Tab  ", TextStyle::Accent), span_str("Previous panel", TextStyle::Plain)));
    push_line(&mut r, line2(span_str("  /          ", TextStyle::Accent), span_str("Focus search", TextStyle::Plain)));
    push_line(&mut r, line2(span_str("  Esc        ", TextStyle::Accent), span_str("Clear search / Back / Close popup", TextStyle::Plain)));
    push_line(&mut r, blank());
    push_line(&mut r, line1(span_str("List & inspector", TextStyle::Dim)));
    assert(lines_view(r@) =~= help_keys_focus());
    r
}

fn help_keys_list_lines() -> (r: Vec<TextLine>)
    ensures
        lines_view(r@) == help_keys_list(),
{
    let mut r: Vec<TextLine> = Vec::new();
    push_line(&mut r, line2(span_str("  ↑/↓  j/k   ", TextStyle::Accent), span_str("Move selection / Scroll inspector", TextStyle::Plain)));
    push_line(&mut r, line2(span_str("  Enter  →  l ", TextStyle::Accent), span_str("Open item / Focus inspector", TextStyle::Plain)));
    push_line(&mut r, line2(span_str("  ←  h       ", TextStyle::Accent), span_str("Back to list (e.g. exit crate view)", TextStyle::Plain)));
    push_line(&mut r, line2(span_str("  Home       ", TextStyle::Accent), span_str("First item", TextStyle::Plain)));
    push_line(&mut r, line2(span_str("  G  End     ", TextStyle::Accent), span_str("Last item", TextStyle::Plain)));
    push_line(&mut r, line2(span_str("  PgUp  PgDn  ", TextStyle::Accent), span_str("Page up / down", TextStyle::Plain)));
    push_line(&mut r, blank());
    push_line(&mut r, line1(span_str("Tabs", TextStyle::Dim)));
    push_line(&mut r, line2(span_str("  1  2  3  4  ", TextStyle::Accent), span_str("Types · Functions · Modules · Crates", TextStyle::Plain)));
    push_line(&mut r, blank());
    assert(lines_view(r@) =~= help_keys_list());
    r
}

fn help_keys_tabs_lines() -> (r: Vec<TextLine>)
    ensures
        lines_view(r@) == help_keys_tabs(),
{
    let mut r: Vec<TextLine> = Vec::new();
    push_line(&mut r, line1(span_str("Crates tab only", TextStyle::Dim)));
    push_line(&mut r, line2(span_str("  [o]        ", TextStyle::Accent), span_str("Open docs.rs in browser", TextStyle::Plain)));
    push_line(&mut r, line2(span_str("  [c]        ", TextStyle::Accent), span_str("Open crates.io in browser", TextStyle::Plain)));
    push_line(&mut r, blank());
    push_line(&mut r, line1(span_str("Other", TextStyle::Dim)));
    push_line(&mut r, line2(span_str("  C          ", TextStyle::Accent), span_str("Open Copilot chat (ask about current item)", TextStyle::Plain)));
    push_line(&mut r, line2(span_str("  t          ", TextStyle::Accent), span_str("Cycle theme", TextStyle::Plain)));
    push_line(&mut r, line2(span_str("  S          ", TextStyle::Accent), span_str("Settings overlay", TextStyle::Plain)));
    push_line(&mut r, line2(span_str("  ?          ", TextStyle::Accent), span_str("Toggle this help", TextStyle::Plain)));
    push_line(&mut r, line2(span_str("  q  Esc     ", TextStyle::Accent), span_str("Quit", TextStyle::Plain)));
    assert(lines_view(r@) =~= help_keys_tabs());
    r
}

fn help_keys_other_lines() -> (r: Vec<TextLine>)
    ensures
        lines_view(r@) == help_keys_other(),
{
    let mut r: Vec<TextLine> = Vec::new();
    push_line(&mut r, blank());
    push_line(&mut r, line1(span_str("Links", TextStyle::Dim)));
    push_line(&mut r, line2(span_str("  g          ", TextStyle::Accent), span_str("Open GitHub repo in browser", TextStyle::Plain)));
    push_line(&mut r, line2(span_str("  s          ", TextStyle::Accent), span_str("Open Sponsor page in browser", TextStyle::Plain)));
    push_line(&mut r, blank());
    push_line(&mut r, line1(span_str("Press any key to close", TextStyle::Muted)));
    assert(lines_view(r@) =~= help_keys_other());
    r
}

/// The lines of the help popup.
pub fn help_lines() -> (r: Vec<TextLine>)
    ensures
        lines_view(r@) == help_text(),
{
    let mut r = help_keys_focus_lines();
    crate::ui::lines::append_lines(&mut r, help_keys_list_lines());
    crate::ui::lines::append_lines(&mut r, help_keys_tabs_lines());
    crate::ui::lines::append_lines(&mut r, help_keys_other_lines());
    r
}

} // verus!
