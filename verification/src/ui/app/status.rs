//! The status bar: the commands that apply in the current context, and counts.

use vstd::prelude::*;

use crate::analyzer::{AnalyzedItem, ItemKind};
use crate::text::{decimal, decimal_digits};
use crate::ui::lines::{line, line_view, span, span_str, span_view, TextLine, TextSpan, TextStyle};
use super::{Tab, VizierUi};

verus! {

/// The spans as texts and styles.
pub open spec fn spans_view(v: Seq<TextSpan>) -> Seq<(Seq<char>, TextStyle)> {
    v.map_values(|s: TextSpan| span_view(s))
}

/// The number of items of kind `k`.
pub open spec fn items_of_kind(items: Seq<AnalyzedItem>, k: ItemKind) -> nat
    decreases items.len(),
{
    if items.len() == 0 {
        0
    } else {
        items_of_kind(items.drop_last(), k) + if items.last().kind == k {
            1nat
        } else {
            0nat
        }
    }
}

/// `[position/total]`, position 0 when nothing is selected.
pub open spec fn selection_info(selected: Option<usize>, total: nat) -> Seq<char> {
    "["@ + decimal_digits(
        match selected {
            Some(s) => (s + 1) as nat,
            None => 0,
        },
    ) + "/"@ + decimal_digits(total) + "]"@
}

/// The links at the end of the status bar.
pub open spec fn link_spans() -> Seq<(Seq<char>, TextStyle)> {
    seq![
        ("│ "@, TextStyle::Dim),
        (" [g] "@, TextStyle::Accent),
        ("GitHub "@, TextStyle::Muted),
        ("[s] "@, TextStyle::Accent),
        ("Sponsor"@, TextStyle::Muted),
    ]
}

/// The status bar: the installed crate being browsed with the selection and its
/// commands; the Crates tab's commands with the number of crates listed; the status
/// message; or the general commands with counts of functions and structs.
pub open spec fn status_spans<'a, Th, Anim>(ui: VizierUi<'a, Th, Anim>) -> Seq<
    (Seq<char>, TextStyle),
> {
    if ui.current_tab == Tab::Crates && ui.selected_installed_crate is Some {
        let c = ui.selected_installed_crate->0;
        seq![
            (" 📦 "@, TextStyle::Accent),
            (c.name@, TextStyle::Normal),
            (" v"@ + c.version@, TextStyle::Dim),
            (" │ "@, TextStyle::Muted),
            (selection_info(ui.list_selected, ui.installed_crate_items@.len()), TextStyle::Muted),
            (" │ "@, TextStyle::Muted),
            ("Tab"@, TextStyle::Accent),
            (" focus "@, TextStyle::Muted),
            ("↑/↓ j/k"@, TextStyle::Accent),
            (" list "@, TextStyle::Muted),
            ("Enter →"@, TextStyle::Accent),
            (" details "@, TextStyle::Muted),
            ("/"@, TextStyle::Accent),
            (" search "@, TextStyle::Muted),
            ("Esc"@, TextStyle::Accent),
            (" back "@, TextStyle::Muted),
        ] + link_spans()
    } else if ui.current_tab == Tab::Crates {
        seq![
            ("Commands: "@, TextStyle::Dim),
            ("Tab"@, TextStyle::Accent),
            (" focus "@, TextStyle::Muted),
            ("↑/↓ j/k"@, TextStyle::Accent),
            (" list "@, TextStyle::Muted),
            ("Enter →"@, TextStyle::Accent),
            (" open "@, TextStyle::Muted),
            ("/"@, TextStyle::Accent),
            (" search "@, TextStyle::Muted),
            ("[o]"@, TextStyle::Accent),
            (" docs "@, TextStyle::Muted),
            ("[c]"@, TextStyle::Accent),
            (" crates.io "@, TextStyle::Muted),
            ("│ "@, TextStyle::Dim),
            ("📦"@, TextStyle::Accent),
            (
                " Crates ("@ + decimal_digits(ui.filtered_dependency_indices@.len()) + ") "@,
                TextStyle::Normal,
            ),
        ] + link_spans()
    } else if ui.status_message@.len() > 0 {
        seq![
            (" "@ + ui.status_message@ + " "@, TextStyle::Str),
            (" │ "@, TextStyle::Muted),
            ("Tab"@, TextStyle::Accent),
            (" focus "@, TextStyle::Muted),
            ("↑/↓ Enter / "@, TextStyle::Accent),
            ("? help q quit "@, TextStyle::Muted),
        ] + link_spans()
    } else {
        seq![
            ("Commands: "@, TextStyle::Dim),
            ("Tab"@, TextStyle::Accent),
            (" focus "@, TextStyle::Muted),
            ("↑/↓ j/k"@, TextStyle::Accent),
            (" list "@, TextStyle::Muted),
            ("Enter →"@, TextStyle::Accent),
            (" open "@, TextStyle::Muted),
            ("/"@, TextStyle::Accent),
            (" search "@, TextStyle::Muted),
            ("1-4"@, TextStyle::Accent),
            (" tabs "@, TextStyle::Muted),
            ("? "@, TextStyle::Accent),
            ("help "@, TextStyle::Muted),
            ("q "@, TextStyle::Accent),
            ("quit "@, TextStyle::Muted),
            ("│ "@, TextStyle::Dim),
            ("fn:"@, TextStyle::Function),
            (decimal_digits(items_of_kind(ui.items@, ItemKind::Function)) + " "@, TextStyle::Normal),
            ("struct:"@, TextStyle::Type),
            (decimal_digits(items_of_kind(ui.items@, ItemKind::Struct)) + " "@, TextStyle::Normal),
            ("selection "@, TextStyle::Muted),
            (selection_info(ui.list_selected, ui.filtered_items@.len()), TextStyle::Dim),
        ] + link_spans()
    }
}

/// Appends a span holding `text`.
pub fn push_span(v: &mut Vec<TextSpan>, text: &str, style: TextStyle)
    ensures
        spans_view(final(v)@) == spans_view(old(v)@).push((text@, style)),
{
    let ghost before = v@;
    v.push(span_str(text, style));
    assert(spans_view(v@) =~= spans_view(before).push((text@, style)));
}

/// Appends a span holding `text`.
pub fn push_owned_span(v: &mut Vec<TextSpan>, text: String, style: TextStyle)
    ensures
        spans_view(final(v)@) == spans_view(old(v)@).push((text@, style)),
{
    let ghost before = v@;
    let ghost t = text@;
    v.push(span(text, style));
    assert(spans_view(v@) =~= spans_view(before).push((t, style)));
}

fn push_links(v: &mut Vec<TextSpan>)
    ensures
        spans_view(final(v)@) == spans_view(old(v)@) + link_spans(),
{
    let ghost before = spans_view(v@);
    push_span(v, "│ ", TextStyle::Dim);
    push_span(v, " [g] ", TextStyle::Accent);
    push_span(v, "GitHub ", TextStyle::Muted);
    push_span(v, "[s] ", TextStyle::Accent);
    push_span(v, "Sponsor", TextStyle::Muted);
    assert(spans_view(v@) =~= before + link_spans());
}

fn selection_text(selected: Option<usize>, total: usize) -> (s: String)
    requires
        selected matches Some(s) ==> s < usize::MAX,
    ensures
        s@ == selection_info(selected, total as nat),
{
    let pos: u64 = match selected {
        Some(s) => s as u64 + 1,
        None => 0,
    };
    let mut s = String::from_str("[");
    s.append(decimal(pos).as_str());
    s.append("/");
    s.append(decimal(total as u64).as_str());
    s.append("]");
    s
}

fn count_items_of_kind(items: &[AnalyzedItem], k: ItemKind) -> (n: usize)
    ensures
        n == items_of_kind(items@, k),
{
    let mut n: usize = 0;
    let mut i: usize = 0;
    while i < items.len()
        invariant
            i <= items@.len(),
            n == items_of_kind(items@.take(i as int), k),
            n <= i,
        decreases items@.len() - i,
    {
        proof {
            assert(items@.take(i + 1).drop_last() =~= items@.take(i as int));
        }
        if items[i].kind == k {
            n = n + 1;
        }
        i = i + 1;
    }
    proof {
        assert(items@.take(items@.len() as int) =~= items@);
    }
    n
}

impl<'a, Th, Anim> VizierUi<'a, Th, Anim> {
    /// The status bar.
    pub fn status_line(&self) -> (l: TextLine)
        requires
            self.list_selected matches Some(s) ==> s < usize::MAX,
        ensures
            line_view(l) == status_spans(*self),
    {
        let mut v: Vec<TextSpan> = Vec::new();
        let ghost empty = spans_view(v@);
        assert(empty =~= Seq::<(Seq<char>, TextStyle)>::empty());
        if self.current_tab == Tab::Crates && self.selected_installed_crate.is_some() {
            let c = self.selected_installed_crate.unwrap();
            push_span(&mut v, " 📦 ", TextStyle::Accent);
            push_span(&mut v, c.name.as_str(), TextStyle::Normal);
            let mut ver = String::from_str(" v");
            ver.append(c.version.as_str());
            push_owned_span(&mut v, ver, TextStyle::Dim);
            push_span(&mut v, " │ ", TextStyle::Muted);
            push_owned_span(
                &mut v,
                selection_text(self.list_selected, self.installed_crate_items.len()),
                TextStyle::Muted,
            );
            push_span(&mut v, " │ ", TextStyle::Muted);
            push_span(&mut v, "Tab", TextStyle::Accent);
            push_span(&mut v, " focus ", TextStyle::Muted);
            push_span(&mut v, "↑/↓ j/k", TextStyle::Accent);
            push_span(&mut v, " list ", TextStyle::Muted);
            push_span(&mut v, "Enter →", TextStyle::Accent);
            push_span(&mut v, " details ", TextStyle::Muted);
            push_span(&mut v, "/", TextStyle::Accent);
            push_span(&mut v, " search ", TextStyle::Muted);
            push_span(&mut v, "Esc", TextStyle::Accent);
            push_span(&mut v, " back ", TextStyle::Muted);
        } else if self.current_tab == Tab::Crates {
            push_span(&mut v, "Commands: ", TextStyle::Dim);
            push_span(&mut v, "Tab", TextStyle::Accent);
            push_span(&mut v, " focus ", TextStyle::Muted);
            push_span(&mut v, "↑/↓ j/k", TextStyle::Accent);
            push_span(&mut v, " list ", TextStyle::Muted);
            push_span(&mut v, "Enter →", TextStyle::Accent);
            push_span(&mut v, " open ", TextStyle::Muted);
            push_span(&mut v, "/", TextStyle::Accent);
            push_span(&mut v, " search ", TextStyle::Muted);
            push_span(&mut v, "[o]", TextStyle::Accent);
            push_span(&mut v, " docs ", TextStyle::Muted);
            push_span(&mut v, "[c]", TextStyle::Accent);
            push_span(&mut v, " crates.io ", TextStyle::Muted);
            push_span(&mut v, "│ ", TextStyle::Dim);
            push_span(&mut v, "📦", TextStyle::Accent);
            let mut count = String::from_str(" Crates (");
            count.append(decimal(self.filtered_dependency_indices.len() as u64).as_str());
            count.append(") ");
            push_owned_span(&mut v, count, TextStyle::Normal);
        } else if self.status_message.unicode_len() > 0 {
            let mut msg = String::from_str(" ");
            msg.append(self.status_message);
            msg.append(" ");
            push_owned_span(&mut v, msg, TextStyle::Str);
            push_span(&mut v, " │ ", TextStyle::Muted);
            push_span(&mut v, "Tab", TextStyle::Accent);
            push_span(&mut v, " focus ", TextStyle::Muted);
            push_span(&mut v, "↑/↓ Enter / ", TextStyle::Accent);
            push_span(&mut v, "? help q quit ", TextStyle::Muted);
        } else {
            let fns = count_items_of_kind(self.items, ItemKind::Function);
            let structs = count_items_of_kind(self.items, ItemKind::Struct);
            push_span(&mut v, "Commands: ", TextStyle::Dim);
            push_span(&mut v, "Tab", TextStyle::Accent);
            push_span(&mut v, " focus ", TextStyle::Muted);
            push_span(&mut v, "↑/↓ j/k", TextStyle::Accent);
            push_span(&mut v, " list ", TextStyle::Muted);
            push_span(&mut v, "Enter →", TextStyle::Accent);
            push_span(&mut v, " open ", TextStyle::Muted);
            push_span(&mut v, "/", TextStyle::Accent);
            push_span(&mut v, " search ", TextStyle::Muted);
            push_span(&mut v, "1-4", TextStyle::Accent);
            push_span(&mut v, " tabs ", TextStyle::Muted);
            push_span(&mut v, "? ", TextStyle::Accent);
            push_span(&mut v, "help ", TextStyle::Muted);
            push_span(&mut v, "q ", TextStyle::Accent);
            push_span(&mut v, "quit ", TextStyle::Muted);
            push_span(&mut v, "│ ", TextStyle::Dim);
            push_span(&mut v, "fn:", TextStyle::Function);
            let mut f = decimal(fns as u64);
            f.append(" ");
            push_owned_span(&mut v, f, TextStyle::Normal);
            push_span(&mut v, "struct:", TextStyle::Type);
            let mut st = decimal(structs as u64);
            st.append(" ");
            push_owned_span(&mut v, st, TextStyle::Normal);
            push_span(&mut v, "selection ", TextStyle::Muted);
            push_owned_span(
                &mut v,
                selection_text(self.list_selected, self.filtered_items.len()),
                TextStyle::Dim,
            );
        }
        push_links(&mut v);
        let l = line(v);
        assert(line_view(l) =~= status_spans(*self));
        l
    }
}

} // verus!
