//! The header: the logo, and live metrics of the project.

use vstd::prelude::*;

use crate::analyzer::ItemKind;
use crate::text::{decimal, decimal_digits};
use crate::ui::lines::{line1, lines_view, push_line, span_str, TextLine, TextStyle};
use super::status::items_of_kind;
use super::VizierUi;

verus! {

/// The logo, line by line.
pub open spec fn logo_art() -> Seq<Seq<char>> {
    seq![
        "██╗   ██╗██╗███████╗██╗███████╗██████╗ "@,
        "██║   ██║██║╚══███╔╝██║██╔════╝██╔══██╗"@,
        "██║   ██║██║  ███╔╝ ██║█████╗  ██████╔╝"@,
        "╚██╗ ██╔╝██║ ███╔╝  ██║██╔══╝  ██╔══██╗"@,
        " ╚████╔╝ ██║███████╗██║███████╗██║  ██║"@,
        "  ╚═══╝  ╚═╝╚══════╝╚═╝╚══════╝╚═╝  ╚═╝"@,
    ]
}

/// The logo lines that fit in `height` rows, in the accent colour.
pub open spec fn logo_text(height: nat) -> Seq<Seq<(Seq<char>, TextStyle)>> {
    let n = if height < 6 { height } else { 6 };
    Seq::new(n, |i: int| seq![(logo_art()[i], TextStyle::Accent)])
}

/// The three metric lines: counts of types (structs, enums and traits), functions and
/// modules; the number of crates and, when known, the size of `target/` (as the
/// caller formats it); and the author.
pub open spec fn header_metrics<'a, Th, Anim>(ui: VizierUi<'a, Th, Anim>, target_size: Seq<char>) -> Seq<
    Seq<char>,
> {
    let items = ui.items@;
    let types = items_of_kind(items, ItemKind::Struct) + items_of_kind(items, ItemKind::Enum)
        + items_of_kind(items, ItemKind::Trait);
    let crates = "📚 "@ + decimal_digits(ui.dependency_tree@.len()) + " crates"@;
    seq![
        "📦 "@ + decimal_digits(types) + " types · "@ + decimal_digits(
            items_of_kind(items, ItemKind::Function),
        ) + " fns · "@ + decimal_digits(items_of_kind(items, ItemKind::Module)) + " mods"@,
        if ui.target_size_bytes is Some {
            crates + " · target "@ + target_size
        } else {
            crates
        },
        "👤 created by yashksaini-coder"@,
    ]
}

fn count_kind_exec(items: &[crate::analyzer::AnalyzedItem], k: ItemKind) -> (n: usize)
    ensures
        n == items_of_kind(items@, k),
        n <= items@.len(),
{
    let mut n: usize = 0;
    let mut i: usize = 0;
    while i < items.len()
        invariant
            i <= items@.len(),
            n == items_of_kind(items@.take(i as int), k),
            n <= i,
        decreases items@.len() - i,
    {
        proof {
            assert(items@.take(i + 1).drop_last() =~= items@.take(i as int));
        }
        if items[i].kind == k {
            n = n + 1;
        }
        i = i + 1;
    }
    proof {
        assert(items@.take(items@.len() as int) =~= items@);
    }
    n
}

proof fn lemma_type_kinds_counted_once(items: Seq<crate::analyzer::AnalyzedItem>)
    ensures
        items_of_kind(items, ItemKind::Struct) + items_of_kind(items, ItemKind::Enum) + items_of_kind(
            items,
            ItemKind::Trait,
        ) <= items.len(),
    decreases items.len(),
{
    if items.len() > 0 {
        lemma_type_kinds_counted_once(items.drop_last());
    }
}

/// The logo lines that fit in `height` rows.
pub fn logo_lines(height: usize) -> (r: Vec<TextLine>)
    ensures
        lines_view(r@) == logo_text(height as nat),
{
    let art: [&str; 6] = [
        "██╗   ██╗██╗███████╗██╗███████╗██████╗ ",
        "██║   ██║██║╚══███╔╝██║██╔════╝██╔══██╗",
        "██║   ██║██║  ███╔╝ ██║█████╗  ██████╔╝",
        "╚██╗ ██╔╝██║ ███╔╝  ██║██╔══╝  ██╔══██╗",
        " ╚████╔╝ ██║███████╗██║███████╗██║  ██║",
        "  ╚═══╝  ╚═╝╚══════╝╚═╝╚══════╝╚═╝  ╚═╝",
    ];
    let n = if height < 6 {
        height
    } else {
        6
    };
    let mut r: Vec<TextLine> = Vec::new();
    let mut i: usize = 0;
    while i < n
        invariant
            n <= 6,
            n == if height < 6 { height as nat } else { 6 },
            i <= n,
            forall|k: int| 0 <= k < 6 ==> #[trigger] art@[k]@ == logo_art()[k],
            lines_view(r@) =~= logo_text(height as nat).take(i as int),
        decreases n - i,
    {
        push_line(&mut r, line1(span_str(art[i], TextStyle::Accent)));
        proof {
            assert(logo_text(height as nat).take(i + 1) =~= logo_text(height as nat).take(i as int).push(
                seq![(logo_art()[i as int], TextStyle::Accent)],
            ));
        }
        i = i + 1;
    }
    proof {
        assert(logo_text(height as nat).take(n as int) =~= logo_text(height as nat));
    }
    r
}

impl<'a, Th, Anim> VizierUi<'a, Th, Anim> {
    /// The metric lines of the header; `target_size` is the size of `target/` as shown
    /// (used when it is known).
    pub fn header_metric_lines(&self, target_size: &str) -> (r: Vec<String>)
        ensures
            r@.map_values(|s: String| s@) == header_metrics(*self, target_size@),
    {
        let items = self.items;
        let fns = count_kind_exec(items, ItemKind::Function);
        let structs = count_kind_exec(items, ItemKind::Struct);
        let enums = count_kind_exec(items, ItemKind::Enum);
        let traits = count_kind_exec(items, ItemKind::Trait);
        let mods = count_kind_exec(items, ItemKind::Module);
        proof {
            lemma_type_kinds_counted_once(items@);
            assert(items.len() == items@.len());
        }
        let types = structs + enums + traits;
        let mut l1 = String::from_str("📦 ");
        l1.append(decimal(types as u64).as_str());
        l1.append(" types · ");
        l1.append(decimal(fns as u64).as_str());
        l1.append(" fns · ");
        l1.append(decimal(mods as u64).as_str());
        l1.append(" mods");
        let mut l2 = String::from_str("📚 ");
        l2.append(decimal(self.dependency_tree.len() as u64).as_str());
        l2.append(" crates");
        if self.target_size_bytes.is_some() {
            l2.append(" · target ");
            l2.append(target_size);
        }
        let l3 = String::from_str("👤 created by yashksaini-coder");
        let mut r: Vec<String> = Vec::new();
        r.push(l1);
        r.push(l2);
        r.push(l3);
        proof {
            assert(r@.map_values(|s: String| s@) =~= header_metrics(*self, target_size@));
        }
        r
    }
}

} // verus!
