//! The list panel: which rows are visible, how each row reads, and the panel title.
//! Drawing the rows (and the selection highlight) is left to the caller.

use vstd::prelude::*;

use crate::analyzer::item::kind_label;
use crate::analyzer::{AnalyzedItem, ItemKind, Visibility};
use crate::text::{decimal, decimal_digits};
use crate::ui::lines::{line, line_view, span, span_str, TextLine, TextSpan, TextStyle};
use super::{Tab, VizierUi};

verus! {

/// A row of a list, and whether it is the selected row.
pub struct ListRow {
    pub line: TextLine,
    pub selected: bool,
}

/// What the list panel shows: its title, the visible rows, and the scrollbar (content
/// length and position) when the content is longer than the panel.
pub struct ListView {
    pub title: String,
    pub rows: Vec<ListRow>,
    pub scrollbar: Option<(usize, usize)>,
}

/// The rows as their lines and selection marks.
pub open spec fn rows_view(rows: Seq<ListRow>) -> Seq<(Seq<(Seq<char>, TextStyle)>, bool)> {
    rows.map_values(|r: ListRow| (line_view(r.line), r.selected))
}

/// The first visible row of a list showing `visible` rows: far enough down that the
/// selected row is the last visible one when it would otherwise be hidden.
pub open spec fn scroll_offset(selected: Option<usize>, visible: nat) -> nat {
    match selected {
        Some(s) => if visible == 0 {
            0
        } else if s >= visible {
            (s - (visible - 1)) as nat
        } else {
            0
        },
        None => 0,
    }
}

/// How many of `total` rows are visible from row `offset` in `visible` rows.
pub open spec fn visible_count(total: nat, offset: nat, visible: nat) -> nat {
    if offset >= total {
        0
    } else if total - offset < visible {
        (total - offset) as nat
    } else {
        visible
    }
}

/// The marker in front of a row.
pub open spec fn row_prefix(selected: bool) -> Seq<char> {
    if selected {
        "▸ "@
    } else {
        "  "@
    }
}

/// The mark of an item's visibility.
pub open spec fn visibility_mark(v: Option<Visibility>) -> Seq<char> {
    match v {
        Some(Visibility::Public) => "●"@,
        Some(Visibility::Crate) => "◐"@,
        _ => "○"@,
    }
}

/// The style of an item's kind label.
pub open spec fn kind_style(k: ItemKind) -> TextStyle {
    match k {
        ItemKind::Function => TextStyle::Function,
        ItemKind::Struct | ItemKind::Enum | ItemKind::TypeAlias => TextStyle::Type,
        ItemKind::Trait => TextStyle::Keyword,
        ItemKind::Module => TextStyle::Accent,
        ItemKind::Const | ItemKind::Static => TextStyle::Str,
        _ => TextStyle::Dim,
    }
}

/// `s` padded with spaces to `width` characters.
pub open spec fn pad_right(s: Seq<char>, width: nat) -> Seq<char> {
    if s.len() >= width {
        s
    } else {
        s + Seq::new((width - s.len()) as nat, |i: int| ' ')
    }
}

/// A row of an item list showing `name`.
pub open spec fn item_row(item: AnalyzedItem, name: Seq<char>, selected: bool) -> Seq<
    (Seq<char>, TextStyle),
> {
    seq![
        (row_prefix(selected), TextStyle::Accent),
        (visibility_mark(item.visibility), TextStyle::Dim),
        (" "@, TextStyle::Plain),
        (pad_right(kind_label(item.kind), 6) + " "@, kind_style(item.kind)),
        (name, TextStyle::Normal),
    ]
}

/// The name shown for an item of an installed crate: its innermost module and name
/// when it lies in a module of the crate.
pub open spec fn installed_item_name(item: AnalyzedItem) -> Seq<char> {
    let m = item.modules@;
    if m.len() >= 2 {
        m.last()@ + "::"@ + item.name@
    } else {
        item.name@
    }
}

/// The position shown in a title when the list is longer than the panel.
pub open spec fn position_note(position: nat, total: nat, visible: nat) -> Seq<char> {
    if total > visible {
        " ["@ + decimal_digits(position) + "/"@ + decimal_digits(total) + "]"@
    } else {
        Seq::empty()
    }
}

/// The visible rows of the tab's item list.
pub open spec fn item_list_rows(items: Seq<&AnalyzedItem>, selected: Option<usize>, visible: nat) -> Seq<
    (Seq<(Seq<char>, TextStyle)>, bool),
> {
    let off = scroll_offset(selected, visible);
    Seq::new(
        visible_count(items.len(), off, visible),
        |k: int|
            {
                let idx = off + k;
                let sel = selected == Some(idx as usize);
                (item_row(*items[idx], items[idx].name@, sel), sel)
            },
    )
}

/// The title of the tab's item list.
pub open spec fn item_list_title(
    shown: nat,
    all: nat,
    searching: bool,
    selected: Option<usize>,
    visible: nat,
) -> Seq<char> {
    let pos = match selected {
        Some(s) => s + 1,
        None => 1,
    };
    let note = position_note(pos as nat, shown, visible);
    if searching {
        " Items ("@ + decimal_digits(shown) + "/"@ + decimal_digits(all) + ")"@ + note + " "@
    } else {
        " Items ("@ + decimal_digits(shown) + ")"@ + note + " "@
    }
}

/// The visible rows of the installed crate's item list.
pub open spec fn installed_list_rows(
    items: Seq<&AnalyzedItem>,
    selected: Option<usize>,
    visible: nat,
) -> Seq<(Seq<(Seq<char>, TextStyle)>, bool)> {
    let off = scroll_offset(selected, visible);
    Seq::new(
        visible_count(items.len(), off, visible),
        |k: int|
            {
                let idx = off + k;
                let sel = selected == Some(idx as usize);
                (item_row(*items[idx], installed_item_name(*items[idx]), sel), sel)
            },
    )
}

/// A dependency list row holding a message instead of a crate.
pub open spec fn message_row(msg: Seq<char>, selected: bool) -> Seq<(Seq<char>, TextStyle)> {
    seq![(row_prefix(selected), TextStyle::Accent), ("○ "@, TextStyle::Muted), (msg, TextStyle::Dim)]
}

/// A dependency list row for the crate `name`.
pub open spec fn crate_row(name: Seq<char>, selected: bool) -> Seq<(Seq<char>, TextStyle)> {
    seq![(row_prefix(selected), TextStyle::Accent), ("📦 "@, TextStyle::Dim), (name, TextStyle::Normal)]
}

/// The visible rows of the Crates tab's dependency list: a message when there is no
/// Cargo project or no crate matches, otherwise the listed crates.
pub open spec fn dependency_list_rows(
    tree: Seq<(String, usize)>,
    indices: Seq<usize>,
    selected: Option<usize>,
    visible: nat,
) -> Seq<(Seq<(Seq<char>, TextStyle)>, bool)> {
    let sel = match selected {
        Some(s) => s,
        None => 0,
    };
    if tree.len() == 0 {
        seq![(message_row("No Cargo project"@, sel == 0), sel == 0)]
    } else if indices.len() == 0 {
        seq![(message_row("No matches for search"@, sel == 0), sel == 0)]
    } else {
        let off = scroll_offset(Some(sel), visible);
        Seq::new(
            visible_count(indices.len(), off, visible),
            |k: int|
                {
                    let idx = off + k;
                    let is_sel = selected == Some(idx as usize);
                    (crate_row(tree[indices[idx] as int].0@, is_sel), is_sel)
                },
        )
    }
}

/// The number of rows of the dependency list (at least one).
pub open spec fn dependency_list_total(tree: Seq<(String, usize)>, indices: Seq<usize>) -> nat {
    if tree.len() == 0 || indices.len() == 0 {
        1
    } else {
        indices.len()
    }
}

/// What the list panel shows for `ui` in `visible` rows.
pub open spec fn list_view_ok<'a, Th, Anim>(
    ui: VizierUi<'a, Th, Anim>,
    visible: nat,
    lv: ListView,
) -> bool {
    let selected = ui.list_selected;
    if ui.current_tab == Tab::Crates {
        match ui.selected_installed_crate {
            Some(c) => {
                let total = ui.installed_crate_items@.len();
                let off = scroll_offset(selected, visible);
                let pos = match selected {
                    Some(s) => s + 1,
                    None => 1,
                };
                &&& lv.title@ == " 📦 "@ + c.name@ + " v"@ + c.version@ + " ("@ + decimal_digits(total)
                    + " items)"@ + position_note(pos as nat, total, visible) + " [Esc] "@
                &&& rows_view(lv.rows@) == installed_list_rows(ui.installed_crate_items@, selected, visible)
                &&& lv.scrollbar == if total > visible {
                    Some((total as usize, off as usize))
                } else {
                    None
                }
            },
            None => {
                let total = dependency_list_total(ui.dependency_tree@, ui.filtered_dependency_indices@);
                let sel = match selected {
                    Some(s) => s,
                    None => 0,
                };
                &&& lv.title@ == " Crates ("@ + decimal_digits(total) + ")"@ + position_note(
                    (sel + 1) as nat,
                    total,
                    visible,
                ) + " "@
                &&& rows_view(lv.rows@) == dependency_list_rows(
                    ui.dependency_tree@,
                    ui.filtered_dependency_indices@,
                    selected,
                    visible,
                )
                &&& lv.scrollbar == if total > visible {
                    Some((total as usize, sel))
                } else {
                    None
                }
            },
        }
    } else {
        let total = ui.filtered_items@.len();
        let off = scroll_offset(selected, visible);
        &&& lv.title@ == item_list_title(total, ui.items@.len(), ui.search_input@.len() > 0, selected, visible)
        &&& rows_view(lv.rows@) == item_list_rows(ui.filtered_items@, selected, visible)
        &&& lv.scrollbar == if total > visible {
            Some((total as usize, off as usize))
        } else {
            None
        }
    }
}

/// The first visible row of a list showing `visible` rows.
pub fn list_scroll_offset(selected: Option<usize>, visible: usize) -> (off: usize)
    ensures
        off == scroll_offset(selected, visible as nat),
{
    match selected {
        Some(s) => if visible == 0 {
            0
        } else if s >= visible {
            s - (visible - 1)
        } else {
            0
        },
        None => 0,
    }
}

fn prefix_span(selected: bool) -> (s: TextSpan)
    ensures
        s.text@ == row_prefix(selected),
        s.style == TextStyle::Accent,
{
    span_str(
        if selected {
            "▸ "
        } else {
            "  "
        },
        TextStyle::Accent,
    )
}

fn visibility_span(v: Option<Visibility>) -> (s: TextSpan)
    ensures
        s.text@ == visibility_mark(v),
        s.style == TextStyle::Dim,
{
    span_str(
        match v {
            Some(Visibility::Public) => "●",
            Some(Visibility::Crate) => "◐",
            _ => "○",
        },
        TextStyle::Dim,
    )
}

fn kind_style_of(k: ItemKind) -> (s: TextStyle)
    ensures
        s == kind_style(k),
{
    match k {
        ItemKind::Function => TextStyle::Function,
        ItemKind::Struct | ItemKind::Enum | ItemKind::TypeAlias => TextStyle::Type,
        ItemKind::Trait => TextStyle::Keyword,
        ItemKind::Module => TextStyle::Accent,
        ItemKind::Const | ItemKind::Static => TextStyle::Str,
        _ => TextStyle::Dim,
    }
}

/// `s` padded with spaces to `width` characters.
pub fn pad_to(s: &str, width: usize) -> (r: String)
    ensures
        r@ == pad_right(s@, width as nat),
{
    let mut r = String::from_str(s);
    let n = s.unicode_len();
    if n < width {
        let mut k: usize = n;
        while k < width
            invariant
                n == s@.len(),
                n <= k <= width,
                r@ == s@ + Seq::new((k - n) as nat, |i: int| ' '),
            decreases width - k,
        {
            let ghost before = r@;
            crate::text::push_char(&mut r, ' ');
            proof {
                assert(r@ =~= s@ + Seq::new((k + 1 - n) as nat, |i: int| ' '));
            }
            k = k + 1;
        }
    } else {
        proof {
            assert(r@ == s@);
        }
    }
    r
}

fn item_row_line(item: &AnalyzedItem, name: String, selected: bool) -> (l: TextLine)
    ensures
        line_view(l) == item_row(*item, name@, selected),
{
    let mut kind = pad_to(item.kind(), 6);
    kind.append(" ");
    let mut v: Vec<TextSpan> = Vec::new();
    v.push(prefix_span(selected));
    v.push(visibility_span(item.visibility));
    v.push(span_str(" ", TextStyle::Plain));
    v.push(span(kind, kind_style_of(item.kind)));
    v.push(span(name, TextStyle::Normal));
    let l = line(v);
    assert(line_view(l) =~= item_row(*item, name@, selected));
    l
}

fn installed_name_of(item: &AnalyzedItem) -> (s: String)
    ensures
        s@ == installed_item_name(*item),
{
    let n = item.modules.len();
    if n >= 2 {
        let mut s = item.modules[n - 1].clone();
        s.append("::");
        s.append(item.name.as_str());
        s
    } else {
        item.name.clone()
    }
}

fn position_text(position: u64, total: usize, visible: usize) -> (s: String)
    ensures
        s@ == position_note(position as nat, total as nat, visible as nat),
{
    if total > visible {
        let mut s = String::from_str(" [");
        s.append(decimal(position).as_str());
        s.append("/");
        s.append(decimal(total as u64).as_str());
        s.append("]");
        s
    } else {
        String::new()
    }
}

fn visible_rows_end(total: usize, off: usize, visible: usize) -> (end: usize)
    ensures
        end == off + visible_count(total as nat, off as nat, visible as nat),
{
    if off >= total {
        off
    } else if total - off < visible {
        total
    } else {
        off + visible
    }
}

impl<'a, Th, Anim> VizierUi<'a, Th, Anim> {
    fn item_list_view(&self, visible: usize) -> (v: ListView)
        requires
            self.list_selected matches Some(s) ==> s < usize::MAX,
            self.current_tab != Tab::Crates,
        ensures
            list_view_ok(*self, visible as nat, v),
    {
        let selected = self.list_selected;
        let total = self.filtered_items.len();
        let off = list_scroll_offset(selected, visible);
        let end = visible_rows_end(total, off, visible);
        let mut rows: Vec<ListRow> = Vec::new();
        let mut idx = off;
        while idx < end
            invariant
                off <= idx <= end,
                end <= total || end == off,
                total == self.filtered_items@.len(),
                end == off + visible_count(total as nat, off as nat, visible as nat),
                off == scroll_offset(selected, visible as nat),
                rows_view(rows@) =~= item_list_rows(self.filtered_items@, selected, visible as nat).take(
                    (idx - off) as int,
                ),
            decreases end - idx,
        {
            let item: &AnalyzedItem = self.filtered_items[idx];
            let sel = match selected {
                Some(s) => s == idx,
                None => false,
            };
            let row = ListRow { line: item_row_line(item, item.name.clone(), sel), selected: sel };
            let ghost before = rows@;
            rows.push(row);
            proof {
                assert(rows_view(rows@) =~= rows_view(before).push((line_view(row.line), sel)));
            }
            idx = idx + 1;
        }
        proof {
            assert(rows_view(rows@) =~= item_list_rows(self.filtered_items@, selected, visible as nat));
        }
        let pos: u64 = match selected {
            Some(s) => s as u64 + 1,
            None => 1,
        };
        let note = position_text(pos, total, visible);
        let mut title = String::from_str(" Items (");
        title.append(decimal(total as u64).as_str());
        if self.search_input.unicode_len() > 0 {
            title.append("/");
            title.append(decimal(self.items.len() as u64).as_str());
        }
        title.append(")");
        title.append(note.as_str());
        title.append(" ");
        let scrollbar = if total > visible {
            Some((total, off))
        } else {
            None
        };
        ListView { title, rows, scrollbar }
    }
    fn installed_list_view(&self, visible: usize) -> (v: ListView)
        requires
            self.list_selected matches Some(s) ==> s < usize::MAX,
            self.current_tab == Tab::Crates,
            self.selected_installed_crate is Some,
        ensures
            list_view_ok(*self, visible as nat, v),
    {
        let c = self.selected_installed_crate.unwrap();
        let selected = self.list_selected;
        let total = self.installed_crate_items.len();
        let off = list_scroll_offset(selected, visible);
        let end = visible_rows_end(total, off, visible);
        let mut rows: Vec<ListRow> = Vec::new();
        let mut idx = off;
        while idx < end
            invariant
                off <= idx <= end,
                end <= total || end == off,
                total == self.installed_crate_items@.len(),
                end == off + visible_count(total as nat, off as nat, visible as nat),
                off == scroll_offset(selected, visible as nat),
                rows_view(rows@) =~= installed_list_rows(
                    self.installed_crate_items@,
                    selected,
                    visible as nat,
                ).take((idx - off) as int),
            decreases end - idx,
        {
            let item: &AnalyzedItem = self.installed_crate_items[idx];
            let sel = match selected {
                Some(s) => s == idx,
                None => false,
            };
            let row = ListRow { line: item_row_line(item, installed_name_of(item), sel), selected: sel };
            let ghost before = rows@;
            rows.push(row);
            proof {
                assert(rows_view(rows@) =~= rows_view(before).push((line_view(row.line), sel)));
            }
            idx = idx + 1;
        }
        proof {
            assert(rows_view(rows@) =~= installed_list_rows(
                self.installed_crate_items@,
                selected,
                visible as nat,
            ));
        }
        let pos: u64 = match selected {
            Some(s) => s as u64 + 1,
            None => 1,
        };
        let mut title = String::from_str(" 📦 ");
        title.append(c.name.as_str());
        title.append(" v");
        title.append(c.version.as_str());
        title.append(" (");
        title.append(decimal(total as u64).as_str());
        title.append(" items)");
        title.append(position_text(pos, total, visible).as_str());
        title.append(" [Esc] ");
        let scrollbar = if total > visible {
            Some((total, off))
        } else {
            None
        };
        ListView { title, rows, scrollbar }
    }

    fn dependency_list_view(&self, visible: usize) -> (v: ListView)
        requires
            self.list_selected matches Some(s) ==> s < usize::MAX,
            self.current_tab == Tab::Crates,
            self.selected_installed_crate is None,
            forall|i: int|
                0 <= i < self.filtered_dependency_indices@.len()
                    ==> #[trigger] self.filtered_dependency_indices@[i] < self.dependency_tree@.len(),
        ensures
            list_view_ok(*self, visible as nat, v),
    {
        let selected = self.list_selected;
        let sel: usize = match selected {
            Some(s) => s,
            None => 0,
        };
        let tree = self.dependency_tree;
        let indices = self.filtered_dependency_indices;
        let total: usize = if tree.len() == 0 || indices.len() == 0 {
            1
        } else {
            indices.len()
        };
        let mut rows: Vec<ListRow> = Vec::new();
        if tree.len() == 0 || indices.len() == 0 {
            let msg = if tree.len() == 0 {
                "No Cargo project"
            } else {
                "No matches for search"
            };
            let mut v: Vec<TextSpan> = Vec::new();
            v.push(prefix_span(sel == 0));
            v.push(span_str("○ ", TextStyle::Muted));
            v.push(span_str(msg, TextStyle::Dim));
            let l = line(v);
            let row = ListRow { line: l, selected: sel == 0 };
            rows.push(row);
            proof {
                assert(line_view(l) =~= message_row(msg@, sel == 0));
                assert(rows_view(rows@) =~= dependency_list_rows(tree@, indices@, selected, visible as nat));
            }
        } else {
            let off = list_scroll_offset(Some(sel), visible);
            let end = visible_rows_end(indices.len(), off, visible);
            let mut idx = off;
            while idx < end
                invariant
                    off <= idx <= end,
                    end <= indices@.len() || end == off,
                    tree@.len() > 0,
                    indices@.len() > 0,
                    end == off + visible_count(indices@.len(), off as nat, visible as nat),
                    off == scroll_offset(Some(sel), visible as nat),
                    sel == match selected {
                        Some(s) => s,
                        None => 0,
                    },
                    forall|i: int|
                        0 <= i < indices@.len() ==> #[trigger] indices@[i] < tree@.len(),
                    rows_view(rows@) =~= dependency_list_rows(
                        tree@,
                        indices@,
                        selected,
                        visible as nat,
                    ).take((idx - off) as int),
                decreases end - idx,
            {
                let is_sel = match selected {
                    Some(s) => s == idx,
                    None => false,
                };
                let name = tree[indices[idx]].0.clone();
                let mut v: Vec<TextSpan> = Vec::new();
                v.push(prefix_span(is_sel));
                v.push(span_str("📦 ", TextStyle::Dim));
                v.push(span(name, TextStyle::Normal));
                let l = line(v);
                proof {
                    assert(line_view(l) =~= crate_row(tree@[indices@[idx as int] as int].0@, is_sel));
                }
                let row = ListRow { line: l, selected: is_sel };
                let ghost before = rows@;
                rows.push(row);
                proof {
                    assert(rows_view(rows@) =~= rows_view(before).push((line_view(row.line), is_sel)));
                }
                idx = idx + 1;
            }
            proof {
                assert(rows_view(rows@) =~= dependency_list_rows(tree@, indices@, selected, visible as nat));
            }
        }
        let mut title = String::from_str(" Crates (");
        title.append(decimal(total as u64).as_str());
        title.append(")");
        title.append(position_text(sel as u64 + 1, total, visible).as_str());
        title.append(" ");
        let scrollbar = if total > visible {
            Some((total, sel))
        } else {
            None
        };
        ListView { title, rows, scrollbar }
    }

    /// What the list panel shows in `visible` rows: the installed crate's items, the
    /// Crates tab's dependency list, or the tab's items.
    pub fn list_view(&self, visible: usize) -> (v: ListView)
        requires
            self.list_selected matches Some(s) ==> s < usize::MAX,
            forall|i: int|
                0 <= i < self.filtered_dependency_indices@.len()
                    ==> #[trigger] self.filtered_dependency_indices@[i] < self.dependency_tree@.len(),
        ensures
            list_view_ok(*self, visible as nat, v),
    {
        if self.current_tab == Tab::Crates {
            if self.selected_installed_crate.is_some() {
                self.installed_list_view(visible)
            } else {
                self.dependency_list_view(visible)
            }
        } else {
            self.item_list_view(visible)
        }
    }
}

} // verus!
