//! Search bar and completion state, and fuzzy filtering of completion candidates.

use fuzzy_matcher::skim::SkimMatcherV2;
use fuzzy_matcher::FuzzyMatcher;
use vstd::prelude::*;
use vstd::utf8::encode_utf8;

use crate::ui::lines::{line3, line_view, span, span_str, TextLine, TextStyle};

verus! {

/// A completion candidate.
#[derive(Debug, Clone)]
pub struct CompletionCandidate {
    pub primary: String,
    pub secondary: Option<String>,
    pub kind: CandidateKind,
    pub score: i64,
}

/// What a completion candidate names.
#[derive(Debug, Clone, Copy, PartialEq, Eq, Structural)]
pub enum CandidateKind {
    Function,
    Struct,
    Enum,
    Trait,
    Module,
    Type,
    Const,
    Crate,
    Other,
}

/// The two-character icon shown for a candidate kind.
pub open spec fn kind_icon(k: CandidateKind) -> Seq<char> {
    match k {
        CandidateKind::Function => "fn"@,
        CandidateKind::Struct => "st"@,
        CandidateKind::Enum => "en"@,
        CandidateKind::Trait => "tr"@,
        CandidateKind::Module => "md"@,
        CandidateKind::Type => "ty"@,
        CandidateKind::Const => "ct"@,
        CandidateKind::Crate => "cr"@,
        CandidateKind::Other => "  "@,
    }
}

/// The style role a candidate kind is drawn in.
pub open spec fn kind_color(k: CandidateKind) -> TextStyle {
    match k {
        CandidateKind::Function => TextStyle::Function,
        CandidateKind::Struct | CandidateKind::Enum | CandidateKind::Type => TextStyle::Type,
        CandidateKind::Trait => TextStyle::Keyword,
        CandidateKind::Module | CandidateKind::Crate => TextStyle::Accent,
        CandidateKind::Const => TextStyle::Number,
        CandidateKind::Other => TextStyle::Dim,
    }
}

impl CandidateKind {
    /// The two-character icon shown for this kind.
    pub fn icon(&self) -> (s: &'static str)
        ensures
            s@ == kind_icon(*self),
    {
        match self {
            CandidateKind::Function => "fn",
            CandidateKind::Struct => "st",
            CandidateKind::Enum => "en",
            CandidateKind::Trait => "tr",
            CandidateKind::Module => "md",
            CandidateKind::Type => "ty",
            CandidateKind::Const => "ct",
            CandidateKind::Crate => "cr",
            CandidateKind::Other => "  ",
        }
    }

    /// The style role this kind is drawn in.
    pub fn color(&self) -> (s: TextStyle)
        ensures
            s == kind_color(*self),
    {
        match self {
            CandidateKind::Function => TextStyle::Function,
            CandidateKind::Struct | CandidateKind::Enum | CandidateKind::Type => TextStyle::Type,
            CandidateKind::Trait => TextStyle::Keyword,
            CandidateKind::Module | CandidateKind::Crate => TextStyle::Accent,
            CandidateKind::Const => TextStyle::Number,
            CandidateKind::Other => TextStyle::Dim,
        }
    }
}

impl CompletionCandidate {
    /// A copy of the candidate.
    pub fn duplicate(&self) -> (c: CompletionCandidate)
        ensures
            c == *self,
    {
        CompletionCandidate {
            primary: self.primary.clone(),
            secondary: match &self.secondary {
                Some(s) => Some(s.clone()),
                None => None,
            },
            kind: self.kind,
            score: self.score,
        }
    }
}

/// Search bar state: the input, where the cursor is, and what is shown when the
/// input is empty. `theme` is carried for rendering.
pub struct SearchBar<'a, Th> {
    pub input: &'a str,
    pub cursor_pos: usize,
    pub theme: &'a Th,
    pub focused: bool,
    pub placeholder: &'a str,
}

impl<'a, Th> SearchBar<'a, Th> {
    /// A focused search bar with the cursor after the input (a byte offset) and the
    /// placeholder `Search...`.
    pub fn new(input: &'a str, theme: &'a Th) -> (b: Self)
        ensures
            b.input == input,
            b.cursor_pos == input.len(),
            b.theme == theme,
            b.focused,
            b.placeholder@ == "Search..."@,
    {
        SearchBar { input, cursor_pos: input.len(), theme, focused: true, placeholder: "Search..." }
    }

    /// Moves the cursor.
    pub fn cursor_position(self, pos: usize) -> (b: Self)
        ensures
            b == (SearchBar { cursor_pos: pos, ..self }),
    {
        SearchBar { cursor_pos: pos, ..self }
    }

    /// Sets whether the bar has focus.
    pub fn focused(self, focused: bool) -> (b: Self)
        ensures
            b == (SearchBar { focused: focused, ..self }),
    {
        SearchBar { focused, ..self }
    }

    /// Sets the text shown when the input is empty.
    pub fn placeholder(self, placeholder: &'a str) -> (b: Self)
        ensures
            b == (SearchBar { placeholder: placeholder, ..self }),
    {
        SearchBar { placeholder, ..self }
    }
}

/// The search bar's line: the prompt, the input (or the placeholder, dimmed, while the
/// input is empty), and a cursor while the bar has focus.
pub open spec fn search_bar_spans(input: Seq<char>, placeholder: Seq<char>, focused: bool) -> Seq<
    (Seq<char>, TextStyle),
> {
    seq![
        ("❯ "@, TextStyle::AccentBold),
        if input.len() == 0 {
            (placeholder, TextStyle::Dim)
        } else {
            (input, TextStyle::Normal)
        },
        if focused {
            ("▏"@, TextStyle::Cursor)
        } else {
            (Seq::empty(), TextStyle::Plain)
        },
    ]
}

impl<'a, Th> SearchBar<'a, Th> {
    /// The line the search bar shows.
    pub fn line(&self) -> (l: TextLine)
        ensures
            line_view(l) == search_bar_spans(self.input@, self.placeholder@, self.focused),
    {
        let text = if self.input.unicode_len() == 0 {
            span_str(self.placeholder, TextStyle::Dim)
        } else {
            span_str(self.input, TextStyle::Normal)
        };
        let cursor = if self.focused {
            span_str("▏", TextStyle::Cursor)
        } else {
            span(String::new(), TextStyle::Plain)
        };
        let l = line3(span_str("❯ ", TextStyle::AccentBold), text, cursor);
        assert(line_view(l) =~= search_bar_spans(self.input@, self.placeholder@, self.focused));
        l
    }
}

/// Completion dropdown state: the candidates, the selected one, the filter text
/// used for highlighting, and how many are shown at most.
pub struct SearchCompletion<'a, Th> {
    pub candidates: &'a [CompletionCandidate],
    pub selected: usize,
    pub filter: &'a str,
    pub theme: &'a Th,
    pub max_visible: usize,
}

impl<'a, Th> SearchCompletion<'a, Th> {
    /// A dropdown with the first candidate selected, no filter and at most ten rows.
    pub fn new(candidates: &'a [CompletionCandidate], theme: &'a Th) -> (c: Self)
        ensures
            c.candidates == candidates,
            c.selected == 0,
            c.filter@ == ""@,
            c.theme == theme,
            c.max_visible == 10,
    {
        SearchCompletion { candidates, selected: 0, filter: "", theme, max_visible: 10 }
    }

    /// Selects a candidate by position.
    pub fn selected(self, index: usize) -> (c: Self)
        ensures
            c == (SearchCompletion { selected: index, ..self }),
    {
        SearchCompletion { selected: index, ..self }
    }

    /// Sets the filter text used for highlighting.
    pub fn filter(self, filter: &'a str) -> (c: Self)
        ensures
            c == (SearchCompletion { filter: filter, ..self }),
    {
        SearchCompletion { filter, ..self }
    }

    /// Sets how many rows are shown at most.
    pub fn max_visible(self, max: usize) -> (c: Self)
        ensures
            c == (SearchCompletion { max_visible: max, ..self }),
    {
        SearchCompletion { max_visible: max, ..self }
    }

    /// The number of rows shown: all candidates, up to `max_visible`.
    pub fn visible_count(&self) -> (n: usize)
        ensures
            n == if self.candidates@.len() < self.max_visible {
                self.candidates@.len()
            } else {
                self.max_visible as nat
            },
    {
        if self.candidates.len() < self.max_visible {
            self.candidates.len()
        } else {
            self.max_visible
        }
    }
}

/// The score the skim fuzzy matcher (default configuration) gives `choice` for
/// `pattern`, or `None` when it does not match.
pub uninterp spec fn skim_score(choice: Seq<char>, pattern: Seq<char>) -> Option<i64>;

/// The score and matched character positions the skim fuzzy matcher (default
/// configuration) reports for `choice` and `pattern`, or `None` when it does not match.
pub uninterp spec fn skim_match_positions(choice: Seq<char>, pattern: Seq<char>) -> Option<
    (i64, Seq<usize>),
>;

/// `SkimMatcherV2::fuzzy_match` with the default matcher: the result is named
/// `skim_score`; an empty pattern matches with score 0.
#[verifier::external_body]
fn skim_fuzzy_match(choice: &str, pattern: &str) -> (r: Option<i64>)
    ensures
        r == skim_score(choice@, pattern@),
        pattern@.len() == 0 ==> r == Some(0i64),
{
    SkimMatcherV2::default().fuzzy_match(choice, pattern)
}

/// `SkimMatcherV2::fuzzy_indices` with the default matcher: the result is named
/// `skim_match_positions`; the positions are character positions of `choice`, in
/// increasing order.
#[verifier::external_body]
fn skim_fuzzy_indices(choice: &str, pattern: &str) -> (r: Option<(i64, Vec<usize>)>)
    ensures
        match r {
            Some((score, v)) => skim_match_positions(choice@, pattern@) == Some((score, v@)) && (
            forall|i: int, j: int| 0 <= i < j < v@.len() ==> v@[i] < v@[j]) && (forall|i: int|
                0 <= i < v@.len() ==> v@[i] < choice@.len()),
            None => skim_match_positions(choice@, pattern@) is None,
        },
{
    SkimMatcherV2::default().fuzzy_indices(choice, pattern)
}

/// A piece of a displayed name, as a byte range, and whether it is a matched character.
#[derive(Debug, Clone, Copy, PartialEq, Eq, Structural)]
pub struct HighlightSpan {
    pub start: usize,
    pub end: usize,
    pub matched: bool,
}

/// The pieces of a text of byte length `len` after `last_end`, given the matched
/// positions `indices`: an unmatched run before each match, the matched character,
/// and the unmatched rest.
pub open spec fn spans_after(len: nat, indices: Seq<usize>, last_end: nat) -> Seq<HighlightSpan>
    decreases indices.len(),
{
    if indices.len() == 0 {
        if last_end < len {
            seq![HighlightSpan { start: last_end as usize, end: len as usize, matched: false }]
        } else {
            Seq::empty()
        }
    } else {
        let idx = indices[0];
        let gap = if idx > last_end {
            seq![HighlightSpan { start: last_end as usize, end: idx, matched: false }]
        } else {
            Seq::<HighlightSpan>::empty()
        };
        gap + seq![HighlightSpan { start: idx, end: (idx + 1) as usize, matched: true }]
            + spans_after(len, indices.drop_first(), (idx + 1) as nat)
    }
}

/// How `text` is highlighted for `query`: the whole text unhighlighted when the query
/// is empty or does not match, otherwise the pieces around the matched positions.
/// Positions are counted up to the text's byte length.
pub open spec fn highlight_of(text: Seq<char>, query: Seq<char>) -> Seq<HighlightSpan> {
    let len = encode_utf8(text).len() as usize;
    let whole = seq![HighlightSpan { start: 0, end: len, matched: false }];
    if query.len() == 0 {
        whole
    } else {
        match skim_match_positions(text, query) {
            Some((_, indices)) => spans_after(len as nat, indices, 0),
            None => whole,
        }
    }
}

/// Splits `text` into pieces for highlighting the characters matched by `query`.
pub fn highlight_fuzzy(text: &str, query: &str) -> (spans: Vec<HighlightSpan>)
    ensures
        spans@ == highlight_of(text@, query@),
{
    let len = text.len();
    let mut whole: Vec<HighlightSpan> = Vec::new();
    whole.push(HighlightSpan { start: 0, end: len, matched: false });
    if query.is_empty() {
        return whole;
    }
    let chars = text.unicode_len();
    match skim_fuzzy_indices(text, query) {
        None => whole,
        Some((_, indices)) => {
            let mut spans: Vec<HighlightSpan> = Vec::new();
            let mut last_end: usize = 0;
            let mut i: usize = 0;
            proof {
                assert(indices@.skip(0) =~= indices@);
                assert(spans@ =~= Seq::<HighlightSpan>::empty());
            }
            while i < indices.len()
                invariant
                    chars == text@.len(),
                    len == text.len(),
                    i <= indices@.len(),
                    forall|a: int, b: int|
                        0 <= a < b < indices@.len() ==> indices@[a] < indices@[b],
                    forall|a: int| 0 <= a < indices@.len() ==> indices@[a] < chars,
                    i > 0 ==> last_end == indices@[i - 1] + 1,
                    i == 0 ==> last_end == 0,
                    spans@ + spans_after(len as nat, indices@.skip(i as int), last_end as nat)
                        == spans_after(len as nat, indices@, 0),
                decreases indices@.len() - i,
            {
                let idx = indices[i];
                let ghost rest = indices@.skip(i as int);
                proof {
                    assert(rest[0] == idx);
                    assert(rest.drop_first() =~= indices@.skip(i + 1));
                }
                if idx > last_end {
                    spans.push(HighlightSpan { start: last_end, end: idx, matched: false });
                }
                spans.push(HighlightSpan { start: idx, end: idx + 1, matched: true });
                proof {
                    let gap = if idx > last_end {
                        seq![HighlightSpan { start: last_end, end: idx, matched: false }]
                    } else {
                        Seq::<HighlightSpan>::empty()
                    };
                    assert(spans_after(len as nat, rest, last_end as nat) == gap + seq![
                        HighlightSpan { start: idx, end: (idx + 1) as usize, matched: true },
                    ] + spans_after(len as nat, indices@.skip(i + 1), (idx + 1) as nat));
                }
                last_end = idx + 1;
                i = i + 1;
            }
            proof {
                assert(indices@.skip(0) =~= indices@);
            }
            if last_end < len {
                spans.push(HighlightSpan { start: last_end, end: len, matched: false });
            }
            proof {
                assert(indices@.skip(indices@.len() as int) =~= Seq::<usize>::empty());
            }
            spans
        },
    }
}

/// A row of the completion dropdown: the kind's icon and its style, the name with
/// the pieces to highlight, the secondary text after a space, and whether the row is
/// the selected one.
pub struct CompletionRow {
    pub icon: &'static str,
    pub icon_style: TextStyle,
    pub name: String,
    pub pieces: Vec<HighlightSpan>,
    pub secondary: Option<String>,
    pub selected: bool,
}

/// The row shown for candidate `c` under the filter `filter`.
pub open spec fn completion_row_ok(
    r: CompletionRow,
    c: CompletionCandidate,
    filter: Seq<char>,
    selected: bool,
) -> bool {
    &&& r.icon@ == kind_icon(c.kind)
    &&& r.icon_style == kind_color(c.kind)
    &&& r.name@ == c.primary@
    &&& r.pieces@ == highlight_of(c.primary@, filter)
    &&& match c.secondary {
        Some(t) => r.secondary matches Some(u) && u@ == " "@ + t@,
        None => r.secondary is None,
    }
    &&& r.selected == selected
}

impl<'a, Th> SearchCompletion<'a, Th> {
    /// The rows shown: the first candidates, as many as fit, each with its name's
    /// matched characters to highlight.
    pub fn rows(&self) -> (rows: Vec<CompletionRow>)
        ensures
            rows@.len() == if self.candidates@.len() < self.max_visible {
                self.candidates@.len()
            } else {
                self.max_visible as nat
            },
            forall|i: int|
                0 <= i < rows@.len() ==> completion_row_ok(
                    #[trigger] rows@[i],
                    self.candidates@[i],
                    self.filter@,
                    i == self.selected,
                ),
    {
        let n = self.visible_count();
        let mut rows: Vec<CompletionRow> = Vec::new();
        let mut i: usize = 0;
        while i < n
            invariant
                n <= self.candidates@.len(),
                n == if self.candidates@.len() < self.max_visible {
                    self.candidates@.len()
                } else {
                    self.max_visible as nat
                },
                i <= n,
                rows@.len() == i,
                forall|j: int|
                    0 <= j < i ==> completion_row_ok(
                        #[trigger] rows@[j],
                        self.candidates@[j],
                        self.filter@,
                        j == self.selected,
                    ),
            decreases n - i,
        {
            let c = &self.candidates[i];
            let secondary = match &c.secondary {
                Some(t) => {
                    let mut u = String::from_str(" ");
                    u.append(t.as_str());
                    Some(u)
                },
                None => None,
            };
            let row = CompletionRow {
                icon: c.kind.icon(),
                icon_style: c.kind.color(),
                name: c.primary.clone(),
                pieces: highlight_fuzzy(c.primary.as_str(), self.filter),
                secondary,
                selected: i == self.selected,
            };
            rows.push(row);
            i = i + 1;
        }
        rows
    }
}

/// The candidates that match `query`, each carrying its match score, in input order.
pub open spec fn scored_candidates(cs: Seq<CompletionCandidate>, query: Seq<char>) -> Seq<
    CompletionCandidate,
>
    decreases cs.len(),
{
    if cs.len() == 0 {
        Seq::empty()
    } else {
        let rest = scored_candidates(cs.drop_last(), query);
        let c = cs.last();
        match skim_score(c.primary@, query) {
            Some(score) => rest.push(CompletionCandidate { score: score, ..c }),
            None => rest,
        }
    }
}

/// Where a candidate with `score` goes in a list sorted by decreasing score: after
/// every candidate whose score is at least as high.
pub open spec fn insert_position(sorted: Seq<CompletionCandidate>, score: i64) -> nat
    decreases sorted.len(),
{
    if sorted.len() == 0 {
        0
    } else if sorted[0].score < score {
        0
    } else {
        1 + insert_position(sorted.drop_first(), score)
    }
}

/// `s` stably sorted by decreasing score: candidates with equal scores keep their
/// order.
pub open spec fn sorted_by_score(s: Seq<CompletionCandidate>) -> Seq<CompletionCandidate>
    decreases s.len(),
{
    if s.len() == 0 {
        Seq::empty()
    } else {
        let sorted = sorted_by_score(s.drop_last());
        sorted.insert(insert_position(sorted, s.last().score) as int, s.last())
    }
}

/// The completion list for `query`: every candidate when the query is empty,
/// otherwise the matching candidates with their scores, best first.
pub open spec fn filter_candidates_of(cs: Seq<CompletionCandidate>, query: Seq<char>) -> Seq<
    CompletionCandidate,
> {
    if query.len() == 0 {
        cs
    } else {
        sorted_by_score(scored_candidates(cs, query))
    }
}

proof fn lemma_insert_position(sorted: Seq<CompletionCandidate>, score: i64)
    ensures
        insert_position(sorted, score) <= sorted.len(),
        forall|i: int| 0 <= i < insert_position(sorted, score) ==> #[trigger] sorted[i].score >= score,
        insert_position(sorted, score) < sorted.len() ==> sorted[insert_position(sorted, score) as int].score
            < score,
    decreases sorted.len(),
{
    if sorted.len() > 0 && sorted[0].score >= score {
        lemma_insert_position(sorted.drop_first(), score);
        assert forall|i: int| 0 <= i < insert_position(sorted, score) implies #[trigger] sorted[i].score
            >= score by {
            if i > 0 {
                assert(sorted[i] == sorted.drop_first()[i - 1]);
            }
        }
    }
}

/// Filters and sorts candidates by fuzzy match against `query`: all candidates
/// unchanged when the query is empty, otherwise those that match, with their
/// scores, best first (equal scores keep their order).
pub fn filter_candidates(candidates: &[CompletionCandidate], query: &str) -> (r: Vec<
    CompletionCandidate,
>)
    ensures
        r@ == filter_candidates_of(candidates@, query@),
{
    if query.is_empty() {
        let mut all: Vec<CompletionCandidate> = Vec::new();
        let mut i: usize = 0;
        while i < candidates.len()
            invariant
                i <= candidates@.len(),
                all@ == candidates@.take(i as int),
            decreases candidates@.len() - i,
        {
            all.push(candidates[i].duplicate());
            proof {
                assert(candidates@.take(i + 1) =~= candidates@.take(i as int).push(candidates@[i as int]));
            }
            i = i + 1;
        }
        proof {
            assert(candidates@.take(candidates@.len() as int) =~= candidates@);
        }
        return all;
    }
    let mut sorted: Vec<CompletionCandidate> = Vec::new();
    let mut i: usize = 0;
    while i < candidates.len()
        invariant
            i <= candidates@.len(),
            sorted@ == sorted_by_score(scored_candidates(candidates@.take(i as int), query@)),
        decreases candidates@.len() - i,
    {
        let c = &candidates[i];
        proof {
            assert(candidates@.take(i + 1).drop_last() =~= candidates@.take(i as int));
            assert(candidates@.take(i + 1).last() == candidates@[i as int]);
        }
        let ghost prev = scored_candidates(candidates@.take(i as int), query@);
        match skim_fuzzy_match(c.primary.as_str(), query) {
            Some(score) => {
                let mut scored = c.duplicate();
                scored.score = score;
                let mut pos: usize = 0;
                proof {
                    assert(sorted@.skip(0) =~= sorted@);
                }
                while pos < sorted.len() && sorted[pos].score >= score
                    invariant
                        pos <= sorted@.len(),
                        insert_position(sorted@, score) == pos + insert_position(
                            sorted@.skip(pos as int),
                            score,
                        ),
                    decreases sorted@.len() - pos,
                {
                    proof {
                        let t = sorted@.skip(pos as int);
                        assert(t[0] == sorted@[pos as int]);
                        assert(t.drop_first() =~= sorted@.skip(pos + 1));
                    }
                    pos = pos + 1;
                }
                proof {
                    let t = sorted@.skip(pos as int);
                    if pos < sorted@.len() {
                        assert(t[0] == sorted@[pos as int]);
                    }
                    assert(insert_position(t, score) == 0);
                    assert(prev.push(scored).drop_last() =~= prev);
                }
                sorted.insert(pos, scored);
            },
            None => {},
        }
        i = i + 1;
    }
    proof {
        assert(candidates@.take(candidates@.len() as int) =~= candidates@);
    }
    sorted
}

/// The fuzzy-filtered completion list is ordered by decreasing score.
pub proof fn lemma_filter_candidates_sorted(cs: Seq<CompletionCandidate>, query: Seq<char>)
    requires
        query.len() > 0,
    ensures
        forall|i: int, j: int|
            0 <= i < j < filter_candidates_of(cs, query).len() ==> #[trigger] filter_candidates_of(
                cs,
                query,
            )[i].score >= #[trigger] filter_candidates_of(cs, query)[j].score,
{
    lemma_sorted_by_score_sorted(scored_candidates(cs, query));
}

proof fn lemma_sorted_by_score_sorted(s: Seq<CompletionCandidate>)
    ensures
        forall|i: int, j: int|
            0 <= i < j < sorted_by_score(s).len() ==> #[trigger] sorted_by_score(s)[i].score
                >= #[trigger] sorted_by_score(s)[j].score,
        sorted_by_score(s).len() == s.len(),
    decreases s.len(),
{
    if s.len() > 0 {
        let prev = sorted_by_score(s.drop_last());
        lemma_sorted_by_score_sorted(s.drop_last());
        let x = s.last();
        lemma_insert_position(prev, x.score);
        let p = insert_position(prev, x.score) as int;
        let out = prev.insert(p, x);
        assert(out == sorted_by_score(s));
        assert forall|i: int, j: int| 0 <= i < j < out.len() implies #[trigger] out[i].score
            >= #[trigger] out[j].score by {
            if j < p {
            } else if j == p {
                assert(prev[i].score >= x.score);
            } else if i < p {
                assert(out[j] == prev[j - 1]);
            } else if i == p {
                assert(out[j] == prev[j - 1]);
                assert(prev[p].score < x.score);
                if j - 1 > p {
                    assert(prev[p].score >= prev[j - 1].score);
                }
            } else {
                assert(out[i] == prev[i - 1]);
                assert(out[j] == prev[j - 1]);
            }
        }
    }
}

/// The fuzzy-filtered completion list holds exactly the matching candidates, each
/// with its score, and nothing else.
pub proof fn lemma_filter_candidates_permutes(cs: Seq<CompletionCandidate>, query: Seq<char>)
    requires
        query.len() > 0,
    ensures
        filter_candidates_of(cs, query).to_multiset() == scored_candidates(cs, query).to_multiset(),
{
    lemma_sorted_by_score_multiset(scored_candidates(cs, query));
}

proof fn lemma_sorted_by_score_multiset(s: Seq<CompletionCandidate>)
    ensures
        sorted_by_score(s).to_multiset() == s.to_multiset(),
    decreases s.len(),
{
    broadcast use vstd::seq_lib::group_to_multiset_ensures;

    if s.len() > 0 {
        let prev = sorted_by_score(s.drop_last());
        lemma_sorted_by_score_multiset(s.drop_last());
        lemma_insert_position(prev, s.last().score);
        assert(s.drop_last().push(s.last()) =~= s);
    }
}

/// `c` is candidate `d` with its score replaced.
pub open spec fn rescored(c: CompletionCandidate, d: CompletionCandidate) -> bool {
    c == (CompletionCandidate { score: c.score, ..d })
}

proof fn lemma_scored_candidates_carry_scores(cs: Seq<CompletionCandidate>, query: Seq<char>)
    ensures
        forall|i: int|
            0 <= i < scored_candidates(cs, query).len() ==> {
                let c = #[trigger] scored_candidates(cs, query)[i];
                &&& skim_score(c.primary@, query) == Some(c.score)
                &&& exists|j: int| 0 <= j < cs.len() && rescored(c, #[trigger] cs[j])
            },
    decreases cs.len(),
{
    if cs.len() > 0 {
        let prev = cs.drop_last();
        lemma_scored_candidates_carry_scores(prev, query);
        let rest = scored_candidates(prev, query);
        let out = scored_candidates(cs, query);
        assert forall|i: int| 0 <= i < out.len() implies {
            let c = #[trigger] out[i];
            &&& skim_score(c.primary@, query) == Some(c.score)
            &&& exists|j: int| 0 <= j < cs.len() && rescored(c, #[trigger] cs[j])
        } by {
            if i < rest.len() {
                assert(out[i] == rest[i]);
                let c = rest[i];
                let j = choose|j: int| 0 <= j < prev.len() && rescored(c, #[trigger] prev[j]);
                assert(prev[j] == cs[j]);
            } else {
                let j = cs.len() - 1;
                assert(cs[j] == cs.last());
            }
        }
    }
}

/// Every completion offered for a non-empty query is one of the candidates, matched
/// by the query and carrying the score the fuzzy matcher gives it for that query (so
/// that the list, best score first, ranks by match quality).
pub proof fn lemma_filter_candidates_carry_scores(cs: Seq<CompletionCandidate>, query: Seq<char>)
    requires
        query.len() > 0,
    ensures
        forall|i: int|
            0 <= i < filter_candidates_of(cs, query).len() ==> {
                let c = #[trigger] filter_candidates_of(cs, query)[i];
                &&& skim_score(c.primary@, query) == Some(c.score)
                &&& exists|j: int| 0 <= j < cs.len() && rescored(c, #[trigger] cs[j])
            },
{
    broadcast use vstd::seq_lib::group_to_multiset_ensures;

    lemma_filter_candidates_permutes(cs, query);
    lemma_scored_candidates_carry_scores(cs, query);
    let out = filter_candidates_of(cs, query);
    let sc = scored_candidates(cs, query);
    assert forall|i: int| 0 <= i < out.len() implies {
        let c = #[trigger] out[i];
        &&& skim_score(c.primary@, query) == Some(c.score)
        &&& exists|j: int| 0 <= j < cs.len() && rescored(c, #[trigger] cs[j])
    } by {
        assert(out.contains(out[i]));
        assert(out.to_multiset().count(out[i]) > 0);
        assert(sc.to_multiset().count(out[i]) > 0);
        assert(sc.contains(out[i]));
        let k = choose|k: int| 0 <= k < sc.len() && sc[k] == out[i];
        assert(sc[k] == out[i]);
    }
}

} // verus!
