//! The Crates tab's inspector: the root crate's metadata, or the documentation of a
//! dependency fetched from crates.io. Both views produce their text as styled lines;
//! drawing them happens outside the library.

use vstd::prelude::*;
use vstd::utf8::{decode_utf8, encode_utf8, encode_utf8_decode_utf8, is_char_boundary};

use crate::analyzer::{CrateInfo, DependencyInfo, DependencyKind};
use crate::crates_io::{CrateDocInfo, GitHubRepoInfo};
use crate::text::{
    chars_of, contains_chars, contains_seq, decimal, decimal_digits, join, join_strings,
    split_lines, string_of, text_lines, views, char_views,
};
use crate::ui::lines::{
    append_lines, blank, line1, line2, line3, line4, lines_view, push_line, span, span_str,
    span_view, TextLine, TextSpan, TextStyle,
};

verus! {

/// The heading of a crate page: name, version, then a blank line.
pub open spec fn heading_lines(name: Seq<char>, version: Seq<char>) -> Seq<Seq<(Seq<char>, TextStyle)>> {
    seq![
        seq![(name, TextStyle::Heading), (" "@, TextStyle::Plain), ("v"@ + version, TextStyle::Dim)],
        Seq::empty(),
    ]
}

/// A `label value` line when the value is present.
pub open spec fn labeled_line(label: Seq<char>, value: Option<String>, style: TextStyle) -> Seq<
    Seq<(Seq<char>, TextStyle)>,
> {
    match value {
        Some(v) => seq![seq![(label, TextStyle::Dim), (v@, style)]],
        None => Seq::empty(),
    }
}

/// The number of dependencies of kind `k`.
pub open spec fn count_kind(deps: Seq<DependencyInfo>, k: DependencyKind) -> nat
    decreases deps.len(),
{
    if deps.len() == 0 {
        0
    } else {
        count_kind(deps.drop_last(), k) + if deps.last().kind == k {
            1nat
        } else {
            0nat
        }
    }
}

/// The normal dependencies, in order.
pub open spec fn normal_deps(deps: Seq<DependencyInfo>) -> Seq<DependencyInfo>
    decreases deps.len(),
{
    if deps.len() == 0 {
        Seq::empty()
    } else if deps.last().kind == DependencyKind::Normal {
        normal_deps(deps.drop_last()).push(deps.last())
    } else {
        normal_deps(deps.drop_last())
    }
}

/// The line listing a dependency: name, version requirement, and whether it is optional.
pub open spec fn dep_line(d: DependencyInfo) -> Seq<(Seq<char>, TextStyle)> {
    seq![
        ("  "@, TextStyle::Plain),
        (d.name@, TextStyle::Type),
        (" "@ + d.version@, TextStyle::Muted),
        (if d.optional {
            " (optional)"@
        } else {
            ""@
        }, TextStyle::Dim),
    ]
}

/// The line listing a feature, marked when the default feature enables it.
pub open spec fn feature_line(f: String, defaults: Seq<String>) -> Seq<(Seq<char>, TextStyle)> {
    seq![
        ("  "@, TextStyle::Plain),
        (f@, TextStyle::Str),
        (if views(defaults).contains(f@) {
            " [default]"@
        } else {
            ""@
        }, TextStyle::Muted),
    ]
}

/// The features of a crate: a count, the first ten, and how many more there are.
pub open spec fn feature_section(features: Seq<String>, defaults: Seq<String>) -> Seq<
    Seq<(Seq<char>, TextStyle)>,
> {
    if features.len() == 0 {
        Seq::empty()
    } else {
        let shown = if features.len() < 10 {
            features.len()
        } else {
            10
        };
        seq![
            Seq::empty(),
            seq![("Features ("@ + decimal_digits(features.len()) + "):"@, TextStyle::Dim)],
        ] + Seq::new(shown, |i: int| feature_line(features[i], defaults)) + if features.len() > 10 {
            seq![
                seq![
                    ("  ... and "@ + decimal_digits((features.len() - 10) as nat) + " more"@, TextStyle::Muted),
                ],
            ]
        } else {
            Seq::empty()
        }
    }
}

/// The dependency summary of a crate: counts by kind, then the first fifteen normal
/// dependencies.
pub open spec fn dependency_section(deps: Seq<DependencyInfo>) -> Seq<Seq<(Seq<char>, TextStyle)>> {
    let normal = normal_deps(deps);
    let shown = if normal.len() < 15 {
        normal.len()
    } else {
        15
    };
    seq![
        Seq::empty(),
        seq![("Dependencies:"@, TextStyle::Dim)],
        seq![
            ("  "@, TextStyle::Plain),
            (decimal_digits(count_kind(deps, DependencyKind::Normal)), TextStyle::Accent),
            (" normal, "@, TextStyle::Plain),
            (decimal_digits(count_kind(deps, DependencyKind::Dev)), TextStyle::Accent),
            (" dev, "@, TextStyle::Plain),
            (decimal_digits(count_kind(deps, DependencyKind::Build)), TextStyle::Accent),
            (" build"@, TextStyle::Plain),
        ],
        Seq::empty(),
    ] + Seq::new(shown, |i: int| dep_line(normal[i]))
}

/// The lines of the root crate's page.
pub open spec fn crate_info_lines(info: CrateInfo) -> Seq<Seq<(Seq<char>, TextStyle)>> {
    heading_lines(info.name@, info.version@) + match info.description {
        Some(d) => seq![seq![(d@, TextStyle::Normal)], Seq::empty()],
        None => Seq::empty(),
    } + labeled_line("License: "@, info.license, TextStyle::Plain) + if info.authors@.len() > 0 {
        seq![seq![("Authors: "@, TextStyle::Dim), (join(views(info.authors@), ", "@), TextStyle::Plain)]]
    } else {
        Seq::empty()
    } + seq![seq![("Edition: "@, TextStyle::Dim), (info.edition@, TextStyle::Plain)]] + labeled_line(
        "MSRV: "@,
        info.rust_version,
        TextStyle::Plain,
    ) + seq![Seq::empty()] + labeled_line("Repository: "@, info.repository, TextStyle::Accent)
        + labeled_line("Documentation: "@, info.documentation, TextStyle::Accent) + feature_section(
        info.features@,
        info.default_features@,
    ) + dependency_section(info.dependencies@)
}

/// The scroll offset used for `total_lines` lines in a viewport of `viewport_height`
/// lines: the requested offset, but never past the last screenful.
pub open spec fn clamped_scroll(total_lines: nat, viewport_height: nat, offset: nat) -> nat {
    let max_scroll = if total_lines > viewport_height {
        (total_lines - viewport_height) as nat
    } else {
        0
    };
    if offset < max_scroll {
        offset
    } else {
        max_scroll
    }
}

/// The scroll offset actually used when showing `total_lines` lines.
pub fn clamp_scroll(total_lines: usize, viewport_height: usize, offset: usize) -> (s: usize)
    ensures
        s == clamped_scroll(total_lines as nat, viewport_height as nat, offset as nat),
{
    let max_scroll = if total_lines > viewport_height {
        total_lines - viewport_height
    } else {
        0
    };
    if offset < max_scroll {
        offset
    } else {
        max_scroll
    }
}

fn heading(name: &String, version: &String) -> (r: Vec<TextLine>)
    ensures
        lines_view(r@) == heading_lines(name@, version@),
{
    let mut v = String::from_str("v");
    v.append(version.as_str());
    let mut r: Vec<TextLine> = Vec::new();
    push_line(
        &mut r,
        line3(
            span(name.clone(), TextStyle::Heading),
            span_str(" ", TextStyle::Plain),
            span(v, TextStyle::Dim),
        ),
    );
    push_line(&mut r, blank());
    assert(lines_view(r@) =~= heading_lines(name@, version@));
    r
}

pub(crate) fn labeled(label: &str, value: &Option<String>, style: TextStyle) -> (r: Vec<TextLine>)
    ensures
        lines_view(r@) == labeled_line(label@, *value, style),
{
    let mut r: Vec<TextLine> = Vec::new();
    match value {
        Some(v) => {
            push_line(&mut r, line2(span_str(label, TextStyle::Dim), span(v.clone(), style)));
        },
        None => {},
    }
    assert(lines_view(r@) =~= labeled_line(label@, *value, style));
    r
}

fn contains_view(list: &Vec<String>, s: &String) -> (b: bool)
    ensures
        b == views(list@).contains(s@),
{
    let mut i: usize = 0;
    while i < list.len()
        invariant
            i <= list@.len(),
            forall|j: int| 0 <= j < i ==> #[trigger] list@[j]@ != s@,
        decreases list@.len() - i,
    {
        if list[i] == *s {
            assert(views(list@)[i as int] == s@);
            return true;
        }
        i = i + 1;
    }
    assert forall|j: int| 0 <= j < views(list@).len() implies #[trigger] views(list@)[j] != s@ by {
        assert(views(list@)[j] == list@[j]@);
    }
    false
}

fn features_lines(features: &Vec<String>, defaults: &Vec<String>) -> (r: Vec<TextLine>)
    ensures
        lines_view(r@) == feature_section(features@, defaults@),
{
    let mut r: Vec<TextLine> = Vec::new();
    let n = features.len();
    if n == 0 {
        assert(lines_view(r@) =~= feature_section(features@, defaults@));
        return r;
    }
    push_line(&mut r, blank());
    let mut title = String::from_str("Features (");
    let count = decimal(n as u64);
    title.append(count.as_str());
    title.append("):");
    push_line(&mut r, line1(span(title, TextStyle::Dim)));
    let shown: usize = if n < 10 {
        n
    } else {
        10
    };
    let ghost head = seq![
        Seq::<(Seq<char>, TextStyle)>::empty(),
        seq![("Features ("@ + decimal_digits(n as nat) + "):"@, TextStyle::Dim)],
    ];
    assert(lines_view(r@) =~= head);
    let mut i: usize = 0;
    while i < shown
        invariant
            n == features@.len(),
            shown <= n,
            i <= shown,
            lines_view(r@) =~= head + Seq::new(i as nat, |k: int| feature_line(features@[k], defaults@)),
        decreases shown - i,
    {
        let f = &features[i];
        let mark = if contains_view(defaults, f) {
            " [default]"
        } else {
            ""
        };
        push_line(
            &mut r,
            line3(span_str("  ", TextStyle::Plain), span(f.clone(), TextStyle::Str), span_str(mark, TextStyle::Muted)),
        );
        i = i + 1;
    }
    if n > 10 {
        let mut more = String::from_str("  ... and ");
        let rest = decimal((n - 10) as u64);
        more.append(rest.as_str());
        more.append(" more");
        push_line(&mut r, line1(span(more, TextStyle::Muted)));
    }
    assert(lines_view(r@) =~= feature_section(features@, defaults@));
    r
}

fn dep_line_exec(d: &DependencyInfo) -> (l: TextLine)
    ensures
        crate::ui::lines::line_view(l) == dep_line(*d),
{
    let mut ver = String::from_str(" ");
    ver.append(d.version.as_str());
    let opt = if d.optional {
        " (optional)"
    } else {
        ""
    };
    line4(
        span_str("  ", TextStyle::Plain),
        span(d.name.clone(), TextStyle::Type),
        span(ver, TextStyle::Muted),
        span_str(opt, TextStyle::Dim),
    )
}

fn dependency_lines(deps: &Vec<DependencyInfo>) -> (r: Vec<TextLine>)
    ensures
        lines_view(r@) == dependency_section(deps@),
{
    let mut normal: u64 = 0;
    let mut dev: u64 = 0;
    let mut build: u64 = 0;
    let mut listed: Vec<TextLine> = Vec::new();
    let mut i: usize = 0;
    while i < deps.len()
        invariant
            i <= deps@.len(),
            normal == count_kind(deps@.take(i as int), DependencyKind::Normal),
            dev == count_kind(deps@.take(i as int), DependencyKind::Dev),
            build == count_kind(deps@.take(i as int), DependencyKind::Build),
            normal as nat == normal_deps(deps@.take(i as int)).len(),
            normal + dev + build <= i,
            lines_view(listed@) =~= Seq::new(
                if normal < 15 {
                    normal as nat
                } else {
                    15
                },
                |k: int| dep_line(normal_deps(deps@.take(i as int))[k]),
            ),
        decreases deps@.len() - i,
    {
        let d = &deps[i];
        proof {
            assert(deps@.take(i + 1).drop_last() =~= deps@.take(i as int));
            assert(deps@.take(i + 1).last() == deps@[i as int]);
        }
        match d.kind {
            DependencyKind::Normal => {
                if normal < 15 {
                    push_line(&mut listed, dep_line_exec(d));
                }
                normal = normal + 1;
            },
            DependencyKind::Dev => {
                dev = dev + 1;
            },
            DependencyKind::Build => {
                build = build + 1;
            },
        }
        i = i + 1;
    }
    proof {
        assert(deps@.take(deps@.len() as int) =~= deps@);
    }
    let mut r: Vec<TextLine> = Vec::new();
    push_line(&mut r, blank());
    push_line(&mut r, line1(span_str("Dependencies:", TextStyle::Dim)));
    let mut counts: Vec<TextSpan> = Vec::new();
    counts.push(span_str("  ", TextStyle::Plain));
    counts.push(span(decimal(normal), TextStyle::Accent));
    counts.push(span_str(" normal, ", TextStyle::Plain));
    counts.push(span(decimal(dev), TextStyle::Accent));
    counts.push(span_str(" dev, ", TextStyle::Plain));
    counts.push(span(decimal(build), TextStyle::Accent));
    counts.push(span_str(" build", TextStyle::Plain));
    let counts_line = crate::ui::lines::line(counts);
    assert(crate::ui::lines::line_view(counts_line) =~= seq![
        ("  "@, TextStyle::Plain),
        (decimal_digits(count_kind(deps@, DependencyKind::Normal)), TextStyle::Accent),
        (" normal, "@, TextStyle::Plain),
        (decimal_digits(count_kind(deps@, DependencyKind::Dev)), TextStyle::Accent),
        (" dev, "@, TextStyle::Plain),
        (decimal_digits(count_kind(deps@, DependencyKind::Build)), TextStyle::Accent),
        (" build"@, TextStyle::Plain),
    ]);
    push_line(&mut r, counts_line);
    push_line(&mut r, blank());
    append_lines(&mut r, listed);
    assert(lines_view(r@) =~= dependency_section(deps@));
    r
}

/// The lines of the root crate's page.
pub fn build_crate_info_lines(info: &CrateInfo) -> (r: Vec<TextLine>)
    ensures
        lines_view(r@) == crate_info_lines(*info),
{
    let mut r = heading(&info.name, &info.version);
    let mut desc: Vec<TextLine> = Vec::new();
    match &info.description {
        Some(d) => {
            push_line(&mut desc, line1(span(d.clone(), TextStyle::Normal)));
            push_line(&mut desc, blank());
        },
        None => {},
    }
    append_lines(&mut r, desc);
    append_lines(&mut r, labeled("License: ", &info.license, TextStyle::Plain));
    if info.authors.len() > 0 {
        let joined = join_strings(info.authors.as_slice(), ", ");
        push_line(
            &mut r,
            line2(span_str("Authors: ", TextStyle::Dim), span(joined, TextStyle::Plain)),
        );
    }
    push_line(
        &mut r,
        line2(span_str("Edition: ", TextStyle::Dim), span(info.edition.clone(), TextStyle::Plain)),
    );
    append_lines(&mut r, labeled("MSRV: ", &info.rust_version, TextStyle::Plain));
    push_line(&mut r, blank());
    append_lines(&mut r, labeled("Repository: ", &info.repository, TextStyle::Accent));
    append_lines(&mut r, labeled("Documentation: ", &info.documentation, TextStyle::Accent));
    append_lines(&mut r, features_lines(&info.features, &info.default_features));
    append_lines(&mut r, dependency_lines(&info.dependencies));
    assert(lines_view(r@) =~= crate_info_lines(*info));
    r
}

/// The dependency view: the root crate's information, scrollable. `theme` is carried
/// for drawing.
pub struct DependencyView<'a, Th> {
    pub crate_info: Option<&'a CrateInfo>,
    pub theme: &'a Th,
    pub focused: bool,
    pub scroll_offset: usize,
    pub show_browser_hint: bool,
}

impl<'a, Th> DependencyView<'a, Th> {
    /// A view without crate information, unfocused, at the top, without the browser hint.
    pub fn new(theme: &'a Th) -> (v: Self)
        ensures
            v.crate_info is None,
            v.theme == theme,
            !v.focused,
            v.scroll_offset == 0,
            !v.show_browser_hint,
    {
        DependencyView {
            crate_info: None,
            theme,
            focused: false,
            scroll_offset: 0,
            show_browser_hint: false,
        }
    }

    /// Sets the scroll offset.
    pub fn scroll(self, offset: usize) -> (v: Self)
        ensures
            v == (DependencyView { scroll_offset: offset, ..self }),
    {
        DependencyView { scroll_offset: offset, ..self }
    }

    /// Sets the crate shown.
    pub fn crate_info(self, info: Option<&'a CrateInfo>) -> (v: Self)
        ensures
            v == (DependencyView { crate_info: info, ..self }),
    {
        DependencyView { crate_info: info, ..self }
    }

    /// Sets whether the view has focus.
    pub fn focused(self, focused: bool) -> (v: Self)
        ensures
            v == (DependencyView { focused: focused, ..self }),
    {
        DependencyView { focused, ..self }
    }

    /// Sets whether the keys for opening docs.rs and crates.io are shown.
    pub fn show_browser_hint(self, show: bool) -> (v: Self)
        ensures
            v == (DependencyView { show_browser_hint: show, ..self }),
    {
        DependencyView { show_browser_hint: show, ..self }
    }

    /// The number of lines the view shows (for clamping the scroll offset): the help
    /// text's lines when there is no crate (eight, and two more with the browser
    /// hint), otherwise the crate page's lines.
    pub fn content_height(&self) -> (h: usize)
        ensures
            h == match self.crate_info {
                None => no_project_text(self.show_browser_hint).len(),
                Some(info) => crate_info_lines(*info).len(),
            },
            self.crate_info is None ==> h == if self.show_browser_hint { 10nat } else { 8nat },
    {
        match self.crate_info {
            None => if self.show_browser_hint {
                10
            } else {
                8
            },
            Some(info) => {
                let lines = build_crate_info_lines(info);
                proof {
                    assert(lines_view(lines@).len() == lines@.len());
                }
                lines.len()
            },
        }
    }
}

/// A section title line.
pub open spec fn section_title(t: Seq<char>) -> Seq<(Seq<char>, TextStyle)> {
    seq![("▸ "@, TextStyle::Accent), (t, TextStyle::SectionTitle), (" ─────────────"@, TextStyle::Muted)]
}

/// Whether the description can be shortened where the view shortens it: a text of at
/// most 600 bytes is kept, a longer one is cut after byte 600, which must then start
/// a character.
pub open spec fn description_cut_ok(doc: CrateDocInfo) -> bool {
    match doc.description {
        Some(d) => encode_utf8(d@).len() <= 600 || is_char_boundary(encode_utf8(d@), 600),
        None => true,
    }
}

/// The description as shown: texts over 600 bytes are cut to their first 600 bytes
/// and end with an ellipsis.
pub open spec fn shown_description(d: Seq<char>) -> Seq<char> {
    let b = encode_utf8(d);
    if b.len() > 600 {
        decode_utf8(b.take(600)) + "…"@
    } else {
        d
    }
}

/// The date shown for an update time: the first ten bytes when byte ten is `T` (an
/// ISO 8601 time stamp), otherwise the whole text.
pub open spec fn shown_update_date(u: Seq<char>) -> Seq<char> {
    let b = encode_utf8(u);
    if b.len() > 10 && b[10] == 84u8 && is_char_boundary(b, 10) {
        decode_utf8(b.take(10))
    } else {
        u
    }
}

/// The description section of a documentation page.
pub open spec fn description_section(desc: Option<String>) -> Seq<Seq<(Seq<char>, TextStyle)>> {
    match desc {
        Some(d) => seq![section_title("Description"@), Seq::empty()] + text_lines(
            shown_description(d@),
        ).map_values(|l: Seq<char>| seq![(l, TextStyle::Normal)]) + seq![Seq::empty()],
        None => Seq::empty(),
    }
}

/// The links section of a documentation page, when there is any link.
pub open spec fn links_section(doc: CrateDocInfo) -> Seq<Seq<(Seq<char>, TextStyle)>> {
    if doc.documentation is Some || doc.homepage is Some || doc.repository is Some {
        seq![section_title("Links"@), Seq::empty()] + labeled_line(
            "  Docs: "@,
            doc.documentation,
            TextStyle::Accent,
        ) + labeled_line("  Home: "@, doc.homepage, TextStyle::Accent) + labeled_line(
            "  Repo: "@,
            doc.repository,
            TextStyle::Accent,
        ) + seq![Seq::empty()]
    } else {
        Seq::empty()
    }
}

/// The lines of GitHub metrics.
pub open spec fn github_metric_lines(g: GitHubRepoInfo) -> Seq<Seq<(Seq<char>, TextStyle)>> {
    (match g.stars {
        Some(n) => seq![seq![("  Stars:  "@, TextStyle::Dim), (decimal_digits(n as nat), TextStyle::Accent)]],
        None => Seq::empty(),
    }) + (match g.forks {
        Some(n) => seq![seq![("  Forks:  "@, TextStyle::Dim), (decimal_digits(n as nat), TextStyle::Accent)]],
        None => Seq::empty(),
    }) + labeled_line("  Lang:   "@, g.language, TextStyle::Type) + (match g.updated_at {
        Some(u) => seq![
            seq![("  Updated:"@, TextStyle::Dim), (" "@ + shown_update_date(u@), TextStyle::Muted)],
        ],
        None => Seq::empty(),
    }) + (match g.open_issues_count {
        Some(n) => if n > 0 {
            seq![
                seq![
                    ("  Issues: "@, TextStyle::Dim),
                    (decimal_digits(n as nat) + " open"@, TextStyle::Warning),
                ],
            ]
        } else {
            Seq::empty()
        },
        None => Seq::empty(),
    })
}

/// Whether the repository URL is on GitHub.
pub open spec fn is_github_repo(doc: CrateDocInfo) -> bool {
    match doc.repository {
        Some(r) => contains_seq(r@, "github.com"@),
        None => false,
    }
}

/// The GitHub section of a documentation page: the metrics when they were fetched,
/// a note when the repository is on GitHub but they are missing, otherwise nothing.
pub open spec fn github_section(doc: CrateDocInfo) -> Seq<Seq<(Seq<char>, TextStyle)>> {
    match doc.github {
        Some(g) => seq![section_title("GitHub"@), Seq::empty()] + github_metric_lines(g) + seq![
            Seq::empty(),
        ],
        None => if is_github_repo(doc) {
            seq![
                section_title("GitHub"@),
                Seq::empty(),
                seq![
                    ("  "@, TextStyle::Dim),
                    ("Unavailable (rate limit or set GITHUB_TOKEN for more)"@, TextStyle::Muted),
                ],
                Seq::empty(),
            ]
        } else {
            Seq::empty()
        },
    }
}

/// The lines of a dependency's documentation page.
pub open spec fn doc_lines(doc: CrateDocInfo) -> Seq<Seq<(Seq<char>, TextStyle)>> {
    heading_lines(doc.name@, doc.version@) + description_section(doc.description) + links_section(
        doc,
    ) + github_section(doc)
}

fn section_title_line(title: &str) -> (l: TextLine)
    ensures
        crate::ui::lines::line_view(l) == section_title(title@),
{
    line3(
        span_str("▸ ", TextStyle::Accent),
        span_str(title, TextStyle::SectionTitle),
        span_str(" ─────────────", TextStyle::Muted),
    )
}

fn shown_description_exec(d: &String) -> (r: String)
    requires
        encode_utf8(d@).len() <= 600 || is_char_boundary(encode_utf8(d@), 600),
    ensures
        r@ == shown_description(d@),
{
    let s = d.as_str();
    if s.as_bytes().len() > 600 {
        let (head, _) = s.split_at(600);
        proof {
            encode_utf8_decode_utf8(head@);
        }
        let mut r = head.to_owned();
        r.append("…");
        r
    } else {
        d.clone()
    }
}

fn shown_update_date_exec(u: &String) -> (r: String)
    ensures
        r@ == shown_update_date(u@),
{
    let s = u.as_str();
    let bytes = s.as_bytes();
    if bytes.len() > 10 && bytes[10] == 84u8 && s.is_char_boundary(10) {
        let (head, _) = s.split_at(10);
        proof {
            encode_utf8_decode_utf8(head@);
        }
        head.to_owned()
    } else {
        u.clone()
    }
}

fn number_line(label: &str, n: u32, style: TextStyle) -> (l: TextLine)
    ensures
        crate::ui::lines::line_view(l) == seq![(label@, TextStyle::Dim), (decimal_digits(n as nat), style)],
{
    line2(span_str(label, TextStyle::Dim), span(decimal(n as u64), style))
}

fn github_lines(g: &GitHubRepoInfo) -> (r: Vec<TextLine>)
    ensures
        lines_view(r@) == github_metric_lines(*g),
{
    let mut r: Vec<TextLine> = Vec::new();
    let ghost mut expect: Seq<Seq<(Seq<char>, TextStyle)>> = Seq::empty();
    match g.stars {
        Some(n) => push_line(&mut r, number_line("  Stars:  ", n, TextStyle::Accent)),
        None => {},
    }
    match g.forks {
        Some(n) => push_line(&mut r, number_line("  Forks:  ", n, TextStyle::Accent)),
        None => {},
    }
    append_lines(&mut r, labeled("  Lang:   ", &g.language, TextStyle::Type));
    match &g.updated_at {
        Some(u) => {
            let mut shown = String::from_str(" ");
            let short = shown_update_date_exec(u);
            shown.append(short.as_str());
            push_line(&mut r, line2(span_str("  Updated:", TextStyle::Dim), span(shown, TextStyle::Muted)));
        },
        None => {},
    }
    match g.open_issues_count {
        Some(n) => {
            if n > 0 {
                let mut text = decimal(n as u64);
                text.append(" open");
                push_line(&mut r, line2(span_str("  Issues: ", TextStyle::Dim), span(text, TextStyle::Warning)));
            }
        },
        None => {},
    }
    assert(lines_view(r@) =~= github_metric_lines(*g));
    r
}

/// The documentation view of a dependency, scrollable. `theme` is carried for drawing.
pub struct DependencyDocView<'a, Th> {
    pub doc: &'a CrateDocInfo,
    pub theme: &'a Th,
    pub focused: bool,
    pub scroll_offset: usize,
    pub show_browser_hint: bool,
}

impl<'a, Th> DependencyDocView<'a, Th> {
    /// A view of `doc`, unfocused, at the top, without the browser hint.
    pub fn new(theme: &'a Th, doc: &'a CrateDocInfo) -> (v: Self)
        ensures
            v.doc == doc,
            v.theme == theme,
            !v.focused,
            v.scroll_offset == 0,
            !v.show_browser_hint,
    {
        DependencyDocView { doc, theme, focused: false, scroll_offset: 0, show_browser_hint: false }
    }

    /// Sets whether the view has focus.
    pub fn focused(self, focused: bool) -> (v: Self)
        ensures
            v == (DependencyDocView { focused: focused, ..self }),
    {
        DependencyDocView { focused, ..self }
    }

    /// Sets the scroll offset.
    pub fn scroll(self, offset: usize) -> (v: Self)
        ensures
            v == (DependencyDocView { scroll_offset: offset, ..self }),
    {
        DependencyDocView { scroll_offset: offset, ..self }
    }

    /// Sets whether the keys for opening docs.rs and crates.io are shown.
    pub fn show_browser_hint(self, show: bool) -> (v: Self)
        ensures
            v == (DependencyDocView { show_browser_hint: show, ..self }),
    {
        DependencyDocView { show_browser_hint: show, ..self }
    }

    /// The lines of the documentation page.
    pub fn build_lines(&self) -> (r: Vec<TextLine>)
        requires
            description_cut_ok(*self.doc),
        ensures
            lines_view(r@) == doc_lines(*self.doc),
    {
        let doc = self.doc;
        let mut r = heading(&doc.name, &doc.version);
        append_lines(&mut r, description_lines(&doc.description));
        append_lines(&mut r, links_lines(doc));
        append_lines(&mut r, github_section_lines(doc));
        assert(lines_view(r@) =~= doc_lines(*doc));
        r
    }
}

fn description_lines(desc: &Option<String>) -> (r: Vec<TextLine>)
    requires
        desc matches Some(d) ==> encode_utf8(d@).len() <= 600 || is_char_boundary(
            encode_utf8(d@),
            600,
        ),
    ensures
        lines_view(r@) == description_section(*desc),
{
    let mut sec: Vec<TextLine> = Vec::new();
    match desc {
        Some(d) => {
            push_line(&mut sec, section_title_line("Description"));
            push_line(&mut sec, blank());
            let shown = shown_description_exec(d);
            let chars = chars_of(shown.as_str());
            let parts = split_lines(chars.as_slice());
            let ghost base = lines_view(sec@);
            let mut i: usize = 0;
            while i < parts.len()
                invariant
                    i <= parts@.len(),
                    char_views(parts@) == text_lines(shown_description(d@)),
                    lines_view(sec@) =~= base + char_views(parts@).take(i as int).map_values(
                        |l: Seq<char>| seq![(l, TextStyle::Normal)],
                    ),
                decreases parts@.len() - i,
            {
                let text = string_of(parts[i].as_slice());
                push_line(&mut sec, line1(span(text, TextStyle::Normal)));
                proof {
                    assert(char_views(parts@)[i as int] == parts@[i as int]@);
                    assert(char_views(parts@).take(i + 1) =~= char_views(parts@).take(i as int).push(
                        parts@[i as int]@,
                    ));
                }
                i = i + 1;
            }
            proof {
                assert(char_views(parts@).take(parts@.len() as int) =~= char_views(parts@));
            }
            push_line(&mut sec, blank());
        },
        None => {},
    }
    assert(lines_view(sec@) =~= description_section(*desc));
    sec
}

fn links_lines(doc: &CrateDocInfo) -> (r: Vec<TextLine>)
    ensures
        lines_view(r@) == links_section(*doc),
{
    let mut sec: Vec<TextLine> = Vec::new();
    if doc.documentation.is_some() || doc.homepage.is_some() || doc.repository.is_some() {
        push_line(&mut sec, section_title_line("Links"));
        push_line(&mut sec, blank());
        append_lines(&mut sec, labeled("  Docs: ", &doc.documentation, TextStyle::Accent));
        append_lines(&mut sec, labeled("  Home: ", &doc.homepage, TextStyle::Accent));
        append_lines(&mut sec, labeled("  Repo: ", &doc.repository, TextStyle::Accent));
        push_line(&mut sec, blank());
    }
    assert(lines_view(sec@) =~= links_section(*doc));
    sec
}

fn github_section_lines(doc: &CrateDocInfo) -> (r: Vec<TextLine>)
    ensures
        lines_view(r@) == github_section(*doc),
{
    let github_repo = match &doc.repository {
        Some(url) => {
            let hay = chars_of(url.as_str());
            let needle = chars_of("github.com");
            contains_chars(hay.as_slice(), needle.as_slice())
        },
        None => false,
    };
    let mut r: Vec<TextLine> = Vec::new();
    match &doc.github {
        Some(g) => {
            push_line(&mut r, section_title_line("GitHub"));
            push_line(&mut r, blank());
            append_lines(&mut r, github_lines(g));
            push_line(&mut r, blank());
        },
        None => {
            if github_repo {
                push_line(&mut r, section_title_line("GitHub"));
                push_line(&mut r, blank());
                push_line(
                    &mut r,
                    line2(
                        span_str("  ", TextStyle::Dim),
                        span_str("Unavailable (rate limit or set GITHUB_TOKEN for more)", TextStyle::Muted),
                    ),
                );
                push_line(&mut r, blank());
            }
        },
    }
    assert(lines_view(r@) =~= github_section(*doc));
    r
}

/// The keys for opening docs.rs and crates.io, shown on the panel's last row.
pub open spec fn browser_hint() -> Seq<(Seq<char>, TextStyle)> {
    seq![
        (" [o] "@, TextStyle::Accent),
        ("docs.rs  "@, TextStyle::Dim),
        (" [c] "@, TextStyle::Accent),
        ("crates.io"@, TextStyle::Dim),
    ]
}

/// The line with the keys for opening docs.rs and crates.io.
pub fn browser_hint_line() -> (l: TextLine)
    ensures
        crate::ui::lines::line_view(l) == browser_hint(),
{
    let l = line4(
        span_str(" [o] ", TextStyle::Accent),
        span_str("docs.rs  ", TextStyle::Dim),
        span_str(" [c] ", TextStyle::Accent),
        span_str("crates.io", TextStyle::Dim),
    );
    assert(crate::ui::lines::line_view(l) =~= browser_hint());
    l
}

/// The title of a dependency's documentation panel.
pub fn doc_panel_title(crate_name: &str) -> (t: String)
    ensures
        t@ == " ◇ "@ + crate_name@ + " "@,
{
    let mut t = String::from_str(" ◇ ");
    t.append(crate_name);
    t.append(" ");
    t
}

/// The text shown while a dependency's documentation is fetched.
pub open spec fn doc_loading_text(crate_name: Seq<char>) -> Seq<Seq<(Seq<char>, TextStyle)>> {
    seq![
        Seq::empty(),
        seq![("Loading documentation for "@ + crate_name + " from crates.io…"@, TextStyle::Dim)],
    ]
}

/// The text shown when a dependency's documentation could not be fetched.
pub open spec fn doc_failed_text(crate_name: Seq<char>) -> Seq<Seq<(Seq<char>, TextStyle)>> {
    seq![
        Seq::empty(),
        seq![("Could not load documentation for "@ + crate_name + "."@, TextStyle::Muted)],
        seq![("Check network or try again later."@, TextStyle::Dim)],
    ]
}

/// The lines shown while a dependency's documentation is fetched.
pub fn doc_loading_lines(crate_name: &str) -> (r: Vec<TextLine>)
    ensures
        lines_view(r@) == doc_loading_text(crate_name@),
{
    let mut msg = String::from_str("Loading documentation for ");
    msg.append(crate_name);
    msg.append(" from crates.io…");
    let mut r: Vec<TextLine> = Vec::new();
    push_line(&mut r, blank());
    push_line(&mut r, line1(span(msg, TextStyle::Dim)));
    assert(lines_view(r@) =~= doc_loading_text(crate_name@));
    r
}

/// The lines shown when a dependency's documentation could not be fetched.
pub fn doc_failed_lines(crate_name: &str) -> (r: Vec<TextLine>)
    ensures
        lines_view(r@) == doc_failed_text(crate_name@),
{
    let mut msg = String::from_str("Could not load documentation for ");
    msg.append(crate_name);
    msg.append(".");
    let mut r: Vec<TextLine> = Vec::new();
    push_line(&mut r, blank());
    push_line(&mut r, line1(span(msg, TextStyle::Muted)));
    push_line(&mut r, line1(span_str("Check network or try again later.", TextStyle::Dim)));
    assert(lines_view(r@) =~= doc_failed_text(crate_name@));
    r
}

/// The help shown on the Crates tab without a Cargo project, with the browser keys
/// when `hint`.
pub open spec fn no_project_text(hint: bool) -> Seq<Seq<(Seq<char>, TextStyle)>> {
    seq![
        Seq::empty(),
        seq![
            (
                "This tab lists your project's dependencies. Select the root crate or a dependency to view its info."@,
                TextStyle::Dim,
            ),
        ],
        Seq::empty(),
        seq![("Open a Cargo project (directory with Cargo.toml) to see:"@, TextStyle::Muted)],
        seq![("  • List of dependencies (left)"@, TextStyle::Muted)],
        seq![("  • Root crate metadata or fetched docs from crates.io (right)"@, TextStyle::Muted)],
        Seq::empty(),
        seq![("Run: rustlens /path/to/your/crate"@, TextStyle::Accent)],
    ] + if hint {
        seq![Seq::empty(), browser_hint()]
    } else {
        Seq::empty()
    }
}

impl<'a, Th> DependencyView<'a, Th> {
    /// The help shown when there is no crate to show.
    pub fn empty_lines(&self) -> (r: Vec<TextLine>)
        ensures
            lines_view(r@) == no_project_text(self.show_browser_hint),
    {
        let mut r: Vec<TextLine> = Vec::new();
        push_line(&mut r, blank());
        push_line(
            &mut r,
            line1(
                span_str(
                    "This tab lists your project's dependencies. Select the root crate or a dependency to view its info.",
                    TextStyle::Dim,
                ),
            ),
        );
        push_line(&mut r, blank());
        push_line(
            &mut r,
            line1(span_str("Open a Cargo project (directory with Cargo.toml) to see:", TextStyle::Muted)),
        );
        push_line(&mut r, line1(span_str("  • List of dependencies (left)", TextStyle::Muted)));
        push_line(
            &mut r,
            line1(
                span_str("  • Root crate metadata or fetched docs from crates.io (right)", TextStyle::Muted),
            ),
        );
        push_line(&mut r, blank());
        push_line(&mut r, line1(span_str("Run: rustlens /path/to/your/crate", TextStyle::Accent)));
        if self.show_browser_hint {
            push_line(&mut r, blank());
            push_line(&mut r, browser_hint_line());
        }
        assert(lines_view(r@) =~= no_project_text(self.show_browser_hint));
        r
    }
}

impl<'a, Th> DependencyDocView<'a, Th> {
    /// The panel title: the crate's name, marked as documentation.
    pub fn title(&self) -> (t: String)
        ensures
            t@ == " ◇ "@ + self.doc.name@ + " (docs) "@,
    {
        let mut t = String::from_str(" ◇ ");
        t.append(self.doc.name.as_str());
        t.append(" (docs) ");
        t
    }
}

} // verus!
