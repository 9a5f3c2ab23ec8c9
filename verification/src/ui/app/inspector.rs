//! The inspector panel: what it shows for the current selection, and the page of
//! an installed crate being browsed.

use vstd::prelude::*;

use crate::analyzer::item::kind_label;
use crate::analyzer::{AnalyzedItem, InstalledCrate};
use crate::text::{char_views, chars_of, decimal, decimal_digits, join, join_strings, split_lines, string_of, text_lines, views};
use crate::ui::dependency_view::{labeled, labeled_line};
use crate::ui::lines::{append_lines, blank, line, line1, line2, line3, line4, lines_view, push_line, span, span_str, TextLine, TextStyle};
use crate::ui::tokens::{section_header, section_header_text};
use super::{Tab, VizierUi};

verus! {

/// What the inspector shows.
pub enum InspectorContent {
    /// The page of the installed crate being browsed (no item selected in it).
    InstalledCrateInfo,
    /// The selected item.
    Item,
    /// The project's root crate.
    RootCrateInfo,
    /// The documentation of the named dependency, being fetched.
    DocLoading(String),
    /// The documentation of the named dependency could not be fetched.
    DocFailed(String),
    /// The fetched documentation of the selected dependency.
    CrateDoc,
}

/// The name of the crate selected on the dependency list, if the selection is valid.
pub open spec fn listed_crate_name<'a, Th, Anim>(ui: VizierUi<'a, Th, Anim>) -> Option<Seq<char>> {
    match ui.list_selected {
        Some(i) => if i < ui.filtered_dependency_indices@.len() && ui.filtered_dependency_indices@[i as int]
            < ui.dependency_tree@.len() {
            Some(ui.dependency_tree@[ui.filtered_dependency_indices@[i as int] as int].0@)
        } else {
            None
        },
        None => None,
    }
}

/// What the inspector of `ui` shows: inside an installed crate its page or the
/// selected item; on the dependency list the root crate (also when the root or
/// nothing is selected), or the selected dependency's documentation (loading, failed,
/// or fetched); on the other tabs the selected item.
pub open spec fn inspector_content_ok<'a, Th, Anim>(ui: VizierUi<'a, Th, Anim>, c: InspectorContent) -> bool {
    if ui.current_tab == Tab::Crates && ui.selected_installed_crate is Some {
        if ui.selected_item is None {
            c is InstalledCrateInfo
        } else {
            c is Item
        }
    } else if ui.current_tab == Tab::Crates {
        let root = if ui.dependency_tree@.len() > 0 {
            Some(ui.dependency_tree@[0].0@)
        } else {
            None
        };
        match (root, listed_crate_name(ui)) {
            (Some(r), Some(n)) => if r == n {
                c is RootCrateInfo
            } else if ui.crate_doc_loading {
                c matches InspectorContent::DocLoading(s) && s@ == n
            } else if ui.crate_doc_failed {
                c matches InspectorContent::DocFailed(s) && s@ == n
            } else if ui.crate_doc is Some {
                c is CrateDoc
            } else {
                c matches InspectorContent::DocLoading(s) && s@ == n
            },
            _ => c is RootCrateInfo,
        }
    } else {
        c is Item
    }
}

/// A section title of an installed crate's page.
pub open spec fn crate_section(t: Seq<char>) -> Seq<Seq<(Seq<char>, TextStyle)>> {
    seq![seq![("━━━ "@, TextStyle::Muted), (t, TextStyle::Accent), (" ━━━"@, TextStyle::Muted)]]
}

/// The keyword lines: one per keyword, after an indenting line.
pub open spec fn keyword_lines(keywords: Seq<String>) -> Seq<Seq<(Seq<char>, TextStyle)>> {
    seq![seq![("  "@, TextStyle::Plain)]] + keywords.map_values(
        |k: String| seq![("  "@, TextStyle::Plain), (" "@ + k@ + " "@, TextStyle::Keyword)],
    )
}

/// The category lines, one per category.
pub open spec fn category_lines(categories: Seq<String>) -> Seq<Seq<(Seq<char>, TextStyle)>> {
    categories.map_values(|k: String| seq![("  • "@, TextStyle::Plain), (k@, TextStyle::Type)])
}

/// The top of an installed crate's page: name and version, and the description.
pub open spec fn crate_page_top(c: InstalledCrate) -> Seq<Seq<(Seq<char>, TextStyle)>> {
    let blank = Seq::<(Seq<char>, TextStyle)>::empty();
    seq![
        seq![
            ("📦 "@, TextStyle::Plain),
            (c.name@, TextStyle::Heading),
            (" "@, TextStyle::Plain),
            ("v"@ + c.version@, TextStyle::Muted),
        ],
        blank,
    ] + match c.description {
        Some(d) => crate_section("Description"@) + seq![
            blank,
            seq![("  "@, TextStyle::Plain), (d@, TextStyle::Normal)],
            blank,
        ],
        None => Seq::empty(),
    }
}

/// The facts of an installed crate's page: license, authors and links.
pub open spec fn crate_page_facts(c: InstalledCrate) -> Seq<Seq<(Seq<char>, TextStyle)>> {
    labeled_line("  License: "@, c.license, TextStyle::Normal) + (if c.authors@.len() > 0 {
        seq![seq![("  Authors: "@, TextStyle::Dim), (join(views(c.authors@), ", "@), TextStyle::Normal)]]
    } else {
        Seq::empty()
    }) + labeled_line("  Repository: "@, c.repository, TextStyle::Accent) + labeled_line(
        "  Docs: "@,
        c.documentation,
        TextStyle::Accent,
    )
}

/// The keywords and categories of an installed crate's page.
pub open spec fn crate_page_tags(c: InstalledCrate) -> Seq<Seq<(Seq<char>, TextStyle)>> {
    let blank = Seq::<(Seq<char>, TextStyle)>::empty();
    (if c.keywords@.len() > 0 {
        seq![blank] + crate_section("Keywords"@) + seq![blank] + keyword_lines(c.keywords@)
    } else {
        Seq::empty()
    }) + (if c.categories@.len() > 0 {
        seq![blank] + crate_section("Categories"@) + seq![blank] + category_lines(c.categories@)
    } else {
        Seq::empty()
    })
}

/// The end of an installed crate's page: location, number of items, browser keys.
pub open spec fn crate_page_end(c: InstalledCrate, item_count: nat) -> Seq<Seq<(Seq<char>, TextStyle)>> {
    let blank = Seq::<(Seq<char>, TextStyle)>::empty();
    seq![blank] + crate_section("Location"@) + seq![
        blank,
        seq![("  📁 "@, TextStyle::Plain), (c.path@, TextStyle::Muted)],
        blank,
    ] + crate_section("Analysis"@) + seq![
        blank,
        seq![("  "@, TextStyle::Plain), (decimal_digits(item_count) + " items found"@, TextStyle::Normal)],
        seq![("  "@, TextStyle::Plain), ("Select an item to view details"@, TextStyle::Muted)],
        blank,
        seq![
            (" [o] "@, TextStyle::Accent),
            ("docs.rs  "@, TextStyle::Dim),
            (" [c] "@, TextStyle::Accent),
            ("crates.io"@, TextStyle::Dim),
        ],
    ]
}

/// The page of an installed crate with `item_count` analyzed items: its name and
/// version, description, license, authors, links, keywords, categories, location,
/// the number of items, and the browser keys.
pub open spec fn installed_crate_page(c: InstalledCrate, item_count: nat) -> Seq<
    Seq<(Seq<char>, TextStyle)>,
> {
    crate_page_top(c) + crate_page_facts(c) + crate_page_tags(c) + crate_page_end(c, item_count)
}

fn crate_section_lines(title: &str) -> (r: Vec<TextLine>)
    ensures
        lines_view(r@) == crate_section(title@),
{
    let mut r: Vec<TextLine> = Vec::new();
    push_line(
        &mut r,
        line3(
            span_str("━━━ ", TextStyle::Muted),
            span_str(title, TextStyle::Accent),
            span_str(" ━━━", TextStyle::Muted),
        ),
    );
    assert(lines_view(r@) =~= crate_section(title@));
    r
}

fn keyword_lines_exec(keywords: &Vec<String>) -> (r: Vec<TextLine>)
    ensures
        lines_view(r@) == keyword_lines(keywords@),
{
    let mut r: Vec<TextLine> = Vec::new();
    let mut first: Vec<crate::ui::lines::TextSpan> = Vec::new();
    first.push(span_str("  ", TextStyle::Plain));
    let l = line(first);
    assert(crate::ui::lines::line_view(l) =~= seq![("  "@, TextStyle::Plain)]);
    push_line(&mut r, l);
    let mut i: usize = 0;
    while i < keywords.len()
        invariant
            i <= keywords@.len(),
            lines_view(r@) =~= keyword_lines(keywords@.take(i as int)),
        decreases keywords@.len() - i,
    {
        let mut k = String::from_str(" ");
        k.append(keywords[i].as_str());
        k.append(" ");
        push_line(&mut r, line2(span_str("  ", TextStyle::Plain), span(k, TextStyle::Keyword)));
        proof {
            assert(keywords@.take(i + 1).map_values(
                |k: String| seq![("  "@, TextStyle::Plain), (" "@ + k@ + " "@, TextStyle::Keyword)],
            ) =~= keywords@.take(i as int).map_values(
                |k: String| seq![("  "@, TextStyle::Plain), (" "@ + k@ + " "@, TextStyle::Keyword)],
            ).push(seq![("  "@, TextStyle::Plain), (" "@ + keywords@[i as int]@ + " "@, TextStyle::Keyword)]));
        }
        i = i + 1;
    }
    proof {
        assert(keywords@.take(keywords@.len() as int) =~= keywords@);
    }
    r
}

fn category_lines_exec(categories: &Vec<String>) -> (r: Vec<TextLine>)
    ensures
        lines_view(r@) == category_lines(categories@),
{
    let mut r: Vec<TextLine> = Vec::new();
    let mut i: usize = 0;
    while i < categories.len()
        invariant
            i <= categories@.len(),
            lines_view(r@) =~= category_lines(categories@.take(i as int)),
        decreases categories@.len() - i,
    {
        push_line(
            &mut r,
            line2(span_str("  • ", TextStyle::Plain), span(categories[i].clone(), TextStyle::Type)),
        );
        proof {
            assert(categories@.take(i + 1).map_values(
                |k: String| seq![("  • "@, TextStyle::Plain), (k@, TextStyle::Type)],
            ) =~= categories@.take(i as int).map_values(
                |k: String| seq![("  • "@, TextStyle::Plain), (k@, TextStyle::Type)],
            ).push(seq![("  • "@, TextStyle::Plain), (categories@[i as int]@, TextStyle::Type)]));
        }
        i = i + 1;
    }
    proof {
        assert(categories@.take(categories@.len() as int) =~= categories@);
    }
    r
}

fn crate_page_top_lines(c: &InstalledCrate) -> (r: Vec<TextLine>)
    ensures
        lines_view(r@) == crate_page_top(*c),
{
    let mut r: Vec<TextLine> = Vec::new();
    let mut v = String::from_str("v");
    v.append(c.version.as_str());
    push_line(
        &mut r,
        line4(
            span_str("📦 ", TextStyle::Plain),
            span(c.name.clone(), TextStyle::Heading),
            span_str(" ", TextStyle::Plain),
            span(v, TextStyle::Muted),
        ),
    );
    push_line(&mut r, blank());
    match &c.description {
        Some(d) => {
            append_lines(&mut r, crate_section_lines("Description"));
            push_line(&mut r, blank());
            push_line(&mut r, line2(span_str("  ", TextStyle::Plain), span(d.clone(), TextStyle::Normal)));
            push_line(&mut r, blank());
        },
        None => {},
    }
    assert(lines_view(r@) =~= crate_page_top(*c));
    r
}

fn crate_page_facts_lines(c: &InstalledCrate) -> (r: Vec<TextLine>)
    ensures
        lines_view(r@) == crate_page_facts(*c),
{
    let mut r: Vec<TextLine> = Vec::new();
    append_lines(&mut r, labeled("  License: ", &c.license, TextStyle::Normal));
    if c.authors.len() > 0 {
        let authors = join_strings(c.authors.as_slice(), ", ");
        push_line(
            &mut r,
            line2(span_str("  Authors: ", TextStyle::Dim), span(authors, TextStyle::Normal)),
        );
    }
    append_lines(&mut r, labeled("  Repository: ", &c.repository, TextStyle::Accent));
    append_lines(&mut r, labeled("  Docs: ", &c.documentation, TextStyle::Accent));
    assert(lines_view(r@) =~= crate_page_facts(*c));
    r
}

fn crate_page_tags_lines(c: &InstalledCrate) -> (r: Vec<TextLine>)
    ensures
        lines_view(r@) == crate_page_tags(*c),
{
    let mut r: Vec<TextLine> = Vec::new();
    if c.keywords.len() > 0 {
        push_line(&mut r, blank());
        append_lines(&mut r, crate_section_lines("Keywords"));
        push_line(&mut r, blank());
        append_lines(&mut r, keyword_lines_exec(&c.keywords));
    }
    if c.categories.len() > 0 {
        push_line(&mut r, blank());
        append_lines(&mut r, crate_section_lines("Categories"));
        push_line(&mut r, blank());
        append_lines(&mut r, category_lines_exec(&c.categories));
    }
    assert(lines_view(r@) =~= crate_page_tags(*c));
    r
}

fn crate_page_end_lines(c: &InstalledCrate, item_count: usize) -> (r: Vec<TextLine>)
    ensures
        lines_view(r@) == crate_page_end(*c, item_count as nat),
{
    let mut r: Vec<TextLine> = Vec::new();
    push_line(&mut r, blank());
    append_lines(&mut r, crate_section_lines("Location"));
    push_line(&mut r, blank());
    push_line(&mut r, line2(span_str("  📁 ", TextStyle::Plain), span(c.path.clone(), TextStyle::Muted)));
    push_line(&mut r, blank());
    append_lines(&mut r, crate_section_lines("Analysis"));
    push_line(&mut r, blank());
    let mut found = decimal(item_count as u64);
    found.append(" items found");
    push_line(&mut r, line2(span_str("  ", TextStyle::Plain), span(found, TextStyle::Normal)));
    push_line(
        &mut r,
        line2(span_str("  ", TextStyle::Plain), span_str("Select an item to view details", TextStyle::Muted)),
    );
    push_line(&mut r, blank());
    push_line(
        &mut r,
        line4(
            span_str(" [o] ", TextStyle::Accent),
            span_str("docs.rs  ", TextStyle::Dim),
            span_str(" [c] ", TextStyle::Accent),
            span_str("crates.io", TextStyle::Dim),
        ),
    );
    assert(lines_view(r@) =~= crate_page_end(*c, item_count as nat));
    r
}

/// The page of an installed crate with `item_count` analyzed items.
pub fn installed_crate_info_lines(c: &InstalledCrate, item_count: usize) -> (r: Vec<TextLine>)
    ensures
        lines_view(r@) == installed_crate_page(*c, item_count as nat),
{
    let mut r = crate_page_top_lines(c);
    append_lines(&mut r, crate_page_facts_lines(c));
    append_lines(&mut r, crate_page_tags_lines(c));
    append_lines(&mut r, crate_page_end_lines(c, item_count));
    r
}

impl<'a, Th, Anim> VizierUi<'a, Th, Anim> {
    /// What the inspector shows.
    pub fn inspector_content(&self) -> (c: InspectorContent)
        ensures
            inspector_content_ok(*self, c),
    {
        if self.current_tab == Tab::Crates && self.selected_installed_crate.is_some() {
            return if self.selected_item.is_none() {
                InspectorContent::InstalledCrateInfo
            } else {
                InspectorContent::Item
            };
        }
        if self.current_tab != Tab::Crates {
            return InspectorContent::Item;
        }
        let tree = self.dependency_tree;
        let indices = self.filtered_dependency_indices;
        if tree.len() == 0 {
            return InspectorContent::RootCrateInfo;
        }
        let selected: Option<&String> = match self.list_selected {
            Some(i) => if i < indices.len() && indices[i] < tree.len() {
                Some(&tree[indices[i]].0)
            } else {
                None
            },
            None => None,
        };
        match selected {
            None => InspectorContent::RootCrateInfo,
            Some(name) => {
                if tree[0].0 == *name {
                    InspectorContent::RootCrateInfo
                } else if self.crate_doc_loading {
                    InspectorContent::DocLoading(name.clone())
                } else if self.crate_doc_failed {
                    InspectorContent::DocFailed(name.clone())
                } else if self.crate_doc.is_some() {
                    InspectorContent::CrateDoc
                } else {
                    InspectorContent::DocLoading(name.clone())
                }
            },
        }
    }
}


/// Text lines, each as one span in the normal style.
pub open spec fn plain_text_lines(s: Seq<char>) -> Seq<Seq<(Seq<char>, TextStyle)>> {
    text_lines(s).map_values(|t: Seq<char>| seq![(t, TextStyle::Normal)])
}

/// The inspector's page for an item: its kind and name, its full path, where it is
/// defined (when known), then its documentation (when it has any) and its
/// definition, each under a section header.
pub open spec fn item_page(item: AnalyzedItem) -> Seq<Seq<(Seq<char>, TextStyle)>> {
    seq![
        seq![(kind_label(item.kind) + " "@, TextStyle::Keyword), (item.name@, TextStyle::AccentBold)],
        seq![(item.qualified_name@, TextStyle::Dim)],
    ] + (match (item.source_file, item.source_line) {
        (Some(f), Some(l)) => seq![seq![(f@ + ":"@ + decimal_digits(l as nat), TextStyle::Muted)]],
        _ => Seq::empty(),
    }) + seq![Seq::empty()] + (match item.documentation {
        Some(d) => seq![section_header_text("Documentation"@)] + plain_text_lines(d@) + seq![
            Seq::empty(),
        ],
        None => Seq::empty(),
    }) + seq![section_header_text("Definition"@)] + plain_text_lines(item.definition@)
}

fn plain_lines_of(s: &String) -> (r: Vec<TextLine>)
    ensures
        lines_view(r@) == plain_text_lines(s@),
{
    let chars = chars_of(s.as_str());
    let parts = split_lines(chars.as_slice());
    let ghost texts = text_lines(s@);
    let mut r: Vec<TextLine> = Vec::new();
    let mut k: usize = 0;
    while k < parts.len()
        invariant
            k <= parts@.len(),
            char_views(parts@) == texts,
            lines_view(r@) == texts.take(k as int).map_values(
                |t: Seq<char>| seq![(t, TextStyle::Normal)],
            ),
        decreases parts@.len() - k,
    {
        assert(parts@[k as int]@ == texts[k as int]);
        let l = line1(span(string_of(parts[k].as_slice()), TextStyle::Normal));
        push_line(&mut r, l);
        proof {
            assert(texts.take(k + 1).map_values(|t: Seq<char>| seq![(t, TextStyle::Normal)])
                =~= texts.take(k as int).map_values(|t: Seq<char>| seq![(t, TextStyle::Normal)]).push(
                seq![(texts[k as int], TextStyle::Normal)],
            ));
        }
        k = k + 1;
    }
    proof {
        assert(texts.take(texts.len() as int) =~= texts);
    }
    r
}

/// The inspector's page for `item` (see [`item_page`]).
pub fn item_page_lines(item: &AnalyzedItem) -> (r: Vec<TextLine>)
    ensures
        lines_view(r@) == item_page(*item),
{
    let mut r: Vec<TextLine> = Vec::new();
    let mut kind = String::from_str(item.kind());
    kind.append(" ");
    push_line(&mut r, line2(span(kind, TextStyle::Keyword), span(item.name.clone(), TextStyle::AccentBold)));
    push_line(&mut r, line1(span(item.qualified_name.clone(), TextStyle::Dim)));
    let ghost head = lines_view(r@);
    match (&item.source_file, item.source_line) {
        (Some(f), Some(l)) => {
            let mut at = f.clone();
            at.append(":");
            at.append(decimal(l as u64).as_str());
            push_line(&mut r, line1(span(at, TextStyle::Muted)));
        },
        _ => {},
    }
    push_line(&mut r, blank());
    match &item.documentation {
        Some(d) => {
            push_line(&mut r, section_header("Documentation"));
            append_lines(&mut r, plain_lines_of(d));
            push_line(&mut r, blank());
        },
        None => {},
    }
    push_line(&mut r, section_header("Definition"));
    append_lines(&mut r, plain_lines_of(&item.definition));
    assert(lines_view(r@) =~= item_page(*item));
    r
}

} // verus!
