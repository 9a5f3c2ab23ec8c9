//! The little Markdown of chat replies: a `#` or `##` header line, and `**bold**`
//! and `` `code` `` inside a line.

use vstd::prelude::*;

use crate::text::{chars_of, chars_range, string_of};
use crate::ui::app::status::{push_owned_span, push_span, spans_view};
use crate::ui::lines::{TextSpan, TextStyle};

verus! {

/// How a part of a line is marked up.
#[derive(Debug, Clone, Copy, PartialEq, Eq, Structural)]
pub enum MdPart {
    Text,
    Bold,
    Code,
}

/// The first position of the pair `a` `b` in `s`.
pub open spec fn first_pair(s: Seq<char>, a: char, b: char) -> Option<nat>
    decreases s.len(),
{
    if s.len() < 2 {
        None
    } else if s[0] == a && s[1] == b {
        Some(0)
    } else {
        match first_pair(s.drop_first(), a, b) {
            Some(i) => Some(i + 1),
            None => None,
        }
    }
}

/// The first position of `c` in `s`.
pub open spec fn first_char(s: Seq<char>, c: char) -> Option<nat>
    decreases s.len(),
{
    if s.len() == 0 {
        None
    } else if s[0] == c {
        Some(0)
    } else {
        match first_char(s.drop_first(), c) {
            Some(i) => Some(i + 1),
            None => None,
        }
    }
}

/// The pair `a` `b` stands at position `i` of `s`.
pub open spec fn pair_at(s: Seq<char>, a: char, b: char, i: int) -> bool {
    0 <= i && i + 1 < s.len() && s[i] == a && s[i + 1] == b
}

/// [`first_pair`] finds the first place of the pair, and nothing when there is none.
pub proof fn lemma_first_pair(s: Seq<char>, a: char, b: char)
    ensures
        match first_pair(s, a, b) {
            Some(i) => pair_at(s, a, b, i as int) && forall|j: int|
                0 <= j < i ==> !#[trigger] pair_at(s, a, b, j),
            None => forall|j: int| !#[trigger] pair_at(s, a, b, j),
        },
    decreases s.len(),
{
    if s.len() >= 2 && !(s[0] == a && s[1] == b) {
        let t = s.drop_first();
        lemma_first_pair(t, a, b);
        assert forall|j: int| 0 <= j && j + 1 < t.len() implies (#[trigger] pair_at(t, a, b, j)
            == pair_at(s, a, b, j + 1)) by {
            assert(t[j] == s[j + 1] && t[j + 1] == s[j + 2]);
        }
        match first_pair(t, a, b) {
            Some(i) => {
                assert forall|j: int| 0 <= j < i + 1 implies !#[trigger] pair_at(s, a, b, j) by {
                    if j > 0 {
                        assert(!pair_at(t, a, b, j - 1));
                    }
                }
            },
            None => {
                assert forall|j: int| !#[trigger] pair_at(s, a, b, j) by {
                    if j > 0 && j + 1 < s.len() {
                        assert(!pair_at(t, a, b, j - 1));
                    }
                }
            },
        }
    }
}

/// [`first_char`] finds the first place of the character, and nothing when there is
/// none.
pub proof fn lemma_first_char(s: Seq<char>, c: char)
    ensures
        match first_char(s, c) {
            Some(i) => i < s.len() && s[i as int] == c && forall|j: int|
                0 <= j < i ==> #[trigger] s[j] != c,
            None => forall|j: int| 0 <= j < s.len() ==> #[trigger] s[j] != c,
        },
    decreases s.len(),
{
    if s.len() > 0 && s[0] != c {
        let t = s.drop_first();
        lemma_first_char(t, c);
        match first_char(t, c) {
            Some(i) => {
                assert forall|j: int| 0 <= j < i + 1 implies #[trigger] s[j] != c by {
                    if j > 0 {
                        assert(s[j] == t[j - 1]);
                    }
                }
            },
            None => {
                assert forall|j: int| 0 <= j < s.len() implies #[trigger] s[j] != c by {
                    if j > 0 {
                        assert(s[j] == t[j - 1]);
                    }
                }
            },
        }
    }
}

proof fn lemma_first_pair_is(s: Seq<char>, a: char, b: char, i: int)
    requires
        pair_at(s, a, b, i),
        forall|j: int| 0 <= j < i ==> !#[trigger] pair_at(s, a, b, j),
    ensures
        first_pair(s, a, b) == Some(i as nat),
{
    lemma_first_pair(s, a, b);
    match first_pair(s, a, b) {
        Some(k) => {
            if (k as int) < i {
                assert(!pair_at(s, a, b, k as int));
            }
            if i < k {
                assert(!pair_at(s, a, b, i));
            }
        },
        None => {
            assert(!pair_at(s, a, b, i));
        },
    }
}

proof fn lemma_first_char_is(s: Seq<char>, c: char, i: int)
    requires
        0 <= i < s.len(),
        s[i] == c,
        forall|j: int| 0 <= j < i ==> #[trigger] s[j] != c,
    ensures
        first_char(s, c) == Some(i as nat),
{
    lemma_first_char(s, c);
    match first_char(s, c) {
        Some(k) => {
            if (k as int) < i {
                assert(s[k as int] == c);
            }
            if i < k {
                assert(s[i] != c);
            }
        },
        None => {
            assert(s[i] != c);
        },
    }
}

/// The earlier of two positions.
pub open spec fn earliest(a: Option<nat>, b: Option<nat>) -> Option<nat> {
    match (a, b) {
        (Some(x), Some(y)) => Some(if x <= y { x } else { y }),
        (Some(x), None) => Some(x),
        (None, Some(y)) => Some(y),
        (None, None) => None,
    }
}

/// The length of the unclosed marker at the start of `s`: one for a backtick, two
/// for `**`.
pub open spec fn marker_len(s: Seq<char>) -> int {
    if s.len() > 0 && s[0] == '`' {
        1
    } else {
        2
    }
}

/// The parts of a line: `**bold**`, `` `code` ``, and plain text up to the next
/// marker. A marker that is never closed is read as plain text, and reading goes on
/// after it.
pub open spec fn md_inline(s: Seq<char>) -> Seq<(Seq<char>, MdPart)>
    decreases s.len(),
{
    if s.len() == 0 {
        Seq::empty()
    } else if s.len() >= 2 && s[0] == '*' && s[1] == '*' && first_pair(s.skip(2), '*', '*') is Some {
        let rest = s.skip(2);
        let e = first_pair(rest, '*', '*')->0;
        proof {
            lemma_first_pair(rest, '*', '*');
        }
        seq![(rest.take(e as int), MdPart::Bold)] + md_inline(rest.skip(e + 2int))
    } else if s[0] == '`' && first_char(s.skip(1), '`') is Some {
        let rest = s.skip(1);
        let e = first_char(rest, '`')->0;
        proof {
            lemma_first_char(rest, '`');
        }
        seq![(rest.take(e as int), MdPart::Code)] + md_inline(rest.skip(e + 1int))
    } else {
        proof {
            lemma_first_pair(s, '*', '*');
            lemma_first_char(s, '`');
        }
        match earliest(first_pair(s, '*', '*'), first_char(s, '`')) {
            None => seq![(s, MdPart::Text)],
            Some(i) => if i == 0 {
                let m = marker_len(s);
                seq![(s.take(m), MdPart::Text)] + md_inline(s.skip(m))
            } else {
                seq![(s.take(i as int), MdPart::Text)] + md_inline(s.skip(i as int))
            },
        }
    }
}

/// `s` without every leading repetition of `p` (`str::trim_start_matches`).
pub open spec fn strip_repeated(s: Seq<char>, p: Seq<char>) -> Seq<char>
    decreases s.len(),
{
    if p.len() > 0 && p.is_prefix_of(s) {
        strip_repeated(s.skip(p.len() as int), p)
    } else {
        s
    }
}

/// The style of a marked-up part.
pub open spec fn part_style(p: MdPart, base: TextStyle, bold: TextStyle) -> TextStyle {
    match p {
        MdPart::Text => base,
        MdPart::Bold => bold,
        MdPart::Code => TextStyle::Type,
    }
}

/// The styled spans of marked-up parts.
pub open spec fn styled_parts(parts: Seq<(Seq<char>, MdPart)>, base: TextStyle, bold: TextStyle) -> Seq<
    (Seq<char>, TextStyle),
> {
    parts.map_values(|x: (Seq<char>, MdPart)| (x.0, part_style(x.1, base, bold)))
}

/// The spans of a line: a header (`## ` or `# `) as an indented bold accent title,
/// otherwise its parts styled as plain (`base`), bold (`bold`) or code.
pub open spec fn markdown_spans(s: Seq<char>, base: TextStyle, bold: TextStyle) -> Seq<
    (Seq<char>, TextStyle),
> {
    if "## "@.is_prefix_of(s) {
        seq![("  "@, TextStyle::Dim), (strip_repeated(s, "## "@), TextStyle::AccentBold)]
    } else if "# "@.is_prefix_of(s) {
        seq![("  "@, TextStyle::Dim), (strip_repeated(s, "# "@), TextStyle::AccentBold)]
    } else {
        styled_parts(md_inline(s), base, bold)
    }
}

fn has_prefix(s: &[char], from: usize, p: &[char]) -> (b: bool)
    requires
        from <= s@.len(),
    ensures
        b == p@.is_prefix_of(s@.skip(from as int)),
{
    if p.len() > s.len() - from {
        return false;
    }
    let mut k: usize = 0;
    while k < p.len()
        invariant
            s.len() == s@.len(),
            from <= s@.len(),
            p@.len() <= s@.len() - from,
            k <= p@.len(),
            forall|j: int| 0 <= j < k ==> p@[j] == s@[from + j],
        decreases p@.len() - k,
    {
        if p[k] != s[from + k] {
            assert(s@.skip(from as int)[k as int] == s@[from + k]);
            return false;
        }
        k = k + 1;
    }
    assert(p@ =~= s@.skip(from as int).take(p@.len() as int));
    true
}

fn strip_repeated_chars(s: &[char], p: &[char]) -> (r: Vec<char>)
    ensures
        r@ == strip_repeated(s@, p@),
{
    let mut from: usize = 0;
    assert(s@.skip(0) =~= s@);
    if p.len() > 0 {
        while has_prefix(s, from, p)
            invariant
                s.len() == s@.len(),
                from <= s@.len(),
                p@.len() > 0,
                strip_repeated(s@, p@) == strip_repeated(s@.skip(from as int), p@),
            decreases s@.len() - from,
        {
            proof {
                assert(s@.skip(from as int).skip(p@.len() as int) =~= s@.skip(from + p@.len()));
            }
            from = from + p.len();
        }
    }
    let r = chars_range(s, from, s.len());
    assert(r@ =~= s@.skip(from as int));
    r
}

fn first_pair_from(s: &[char], from: usize, a: char, b: char) -> (r: Option<usize>)
    requires
        from <= s@.len(),
    ensures
        match r {
            Some(i) => from <= i && i + 2 <= s@.len() && first_pair(s@.skip(from as int), a, b)
                == Some((i - from) as nat),
            None => first_pair(s@.skip(from as int), a, b) is None,
        },
{
    let ghost t = s@.skip(from as int);
    let mut j = from;
    while s.len() - j >= 2
        invariant
            s.len() == s@.len(),
            from <= j <= s@.len(),
            t == s@.skip(from as int),
            forall|k: int| 0 <= k < j - from ==> !#[trigger] pair_at(t, a, b, k),
        decreases s@.len() - j,
    {
        proof {
            assert(t[j - from] == s@[j as int] && t[j - from + 1] == s@[j + 1]);
        }
        if s[j] == a && s[j + 1] == b {
            proof {
                lemma_first_pair_is(t, a, b, j - from);
            }
            return Some(j);
        }
        j = j + 1;
    }
    proof {
        lemma_first_pair(t, a, b);
        if let Some(i) = first_pair(t, a, b) {
            assert(pair_at(t, a, b, i as int));
        }
    }
    None
}

fn first_char_from(s: &[char], from: usize, c: char) -> (r: Option<usize>)
    requires
        from <= s@.len(),
    ensures
        match r {
            Some(i) => from <= i < s@.len() && first_char(s@.skip(from as int), c) == Some(
                (i - from) as nat,
            ),
            None => first_char(s@.skip(from as int), c) is None,
        },
{
    let ghost t = s@.skip(from as int);
    let mut j = from;
    while j < s.len()
        invariant
            s.len() == s@.len(),
            from <= j <= s@.len(),
            t == s@.skip(from as int),
            forall|k: int| 0 <= k < j - from ==> #[trigger] t[k] != c,
        decreases s@.len() - j,
    {
        proof {
            assert(t[j - from] == s@[j as int]);
        }
        if s[j] == c {
            proof {
                lemma_first_char_is(t, c, j - from);
            }
            return Some(j);
        }
        j = j + 1;
    }
    proof {
        lemma_first_char(t, c);
        if let Some(i) = first_char(t, c) {
            assert(t[i as int] == c);
        }
    }
    None
}

/// One step of reading a line from a position: the part `from..to` of kind `kind`;
/// reading goes on at `next`.
struct MdStep {
    kind: MdPart,
    from: usize,
    to: usize,
    next: usize,
}

#[verifier::spinoff_prover]
#[verifier::rlimit(40)]
fn md_step(s: &[char], pos: usize) -> (r: MdStep)
    requires
        pos < s@.len(),
    ensures
        pos < r.next <= s@.len(),
        r.from <= r.to <= s@.len(),
        md_inline(s@.skip(pos as int)) == seq![(s@.subrange(r.from as int, r.to as int), r.kind)]
            + md_inline(s@.skip(r.next as int)),
{
    let ghost t = s@.skip(pos as int);
    let n = s.len();
    proof {
        assert(t[0] == s@[pos as int]);
        if t.len() >= 2 {
            assert(t[1] == s@[pos + 1]);
        }
    }
    if n - pos >= 2 && s[pos] == '*' && s[pos + 1] == '*' {
        match first_pair_from(s, pos + 2, '*', '*') {
            Some(e) => {
                proof {
                    assert(t.skip(2) =~= s@.skip(pos + 2));
                    assert(t.skip(2).take((e - pos - 2) as int) =~= s@.subrange(pos + 2, e as int));
                    assert(t.skip(2).skip(e - pos - 2 + 2) =~= s@.skip(e + 2));
                }
                return MdStep { kind: MdPart::Bold, from: pos + 2, to: e, next: e + 2 };
            },
            None => {
                proof {
                    assert(t.skip(2) =~= s@.skip(pos + 2));
                }
            },
        }
    }
    if s[pos] == '`' {
        match first_char_from(s, pos + 1, '`') {
            Some(e) => {
                proof {
                    assert(t.skip(1) =~= s@.skip(pos + 1));
                    assert(t.skip(1).take((e - pos - 1) as int) =~= s@.subrange(pos + 1, e as int));
                    assert(t.skip(1).skip(e - pos - 1 + 1) =~= s@.skip(e + 1));
                }
                return MdStep { kind: MdPart::Code, from: pos + 1, to: e, next: e + 1 };
            },
            None => {
                proof {
                    assert(t.skip(1) =~= s@.skip(pos + 1));
                }
            },
        }
    }
    let nb = first_pair_from(s, pos, '*', '*');
    let nc = first_char_from(s, pos, '`');
    let next: Option<usize> = match (nb, nc) {
        (Some(a), Some(b)) => Some(if a <= b { a } else { b }),
        (Some(a), None) => Some(a),
        (None, Some(b)) => Some(b),
        (None, None) => None,
    };
    match next {
        None => {
            proof {
                assert(s@.subrange(pos as int, n as int) =~= t);
                assert(s@.skip(n as int) =~= Seq::<char>::empty());
                assert(seq![(t, MdPart::Text)] =~= seq![(t, MdPart::Text)] + Seq::<(Seq<char>, MdPart)>::empty());
            }
            MdStep { kind: MdPart::Text, from: pos, to: n, next: n }
        },
        Some(i) => {
            if i == pos {
                let m: usize = if s[pos] == '`' {
                    1
                } else {
                    2
                };
                proof {
                    assert(t.take(m as int) =~= s@.subrange(pos as int, pos + m));
                    assert(t.skip(m as int) =~= s@.skip(pos + m));
                }
                return MdStep { kind: MdPart::Text, from: pos, to: pos + m, next: pos + m };
            }
            proof {
                assert(t.take(i - pos) =~= s@.subrange(pos as int, i as int));
                assert(t.skip(i - pos) =~= s@.skip(i as int));
            }
            MdStep { kind: MdPart::Text, from: pos, to: i, next: i }
        },
    }
}

fn push_part(v: &mut Vec<TextSpan>, s: &[char], from: usize, to: usize, style: TextStyle)
    requires
        from <= to <= s@.len(),
    ensures
        spans_view(final(v)@) == spans_view(old(v)@).push((s@.subrange(from as int, to as int), style)),
{
    let text = string_of(chars_range(s, from, to).as_slice());
    push_owned_span(v, text, style);
}

fn part_style_of(p: MdPart, base: TextStyle, bold: TextStyle) -> (st: TextStyle)
    ensures
        st == part_style(p, base, bold),
{
    match p {
        MdPart::Text => base,
        MdPart::Bold => bold,
        MdPart::Code => TextStyle::Type,
    }
}

/// The spans of a chat line with its Markdown: a header line (`## ` or `# `) as an
/// indented bold accent title; otherwise `**bold**` in `bold`, `` `code` `` as code and
/// the rest in `base`.
pub fn markdown_line_to_spans(line: &str, base: TextStyle, bold: TextStyle) -> (spans: Vec<
    TextSpan,
>)
    ensures
        spans_view(spans@) == markdown_spans(line@, base, bold),
{
    let s = chars_of(line);
    let h2 = chars_of("## ");
    let h1 = chars_of("# ");
    let mut v: Vec<TextSpan> = Vec::new();
    assert(s@.skip(0) =~= s@);
    if has_prefix(s.as_slice(), 0, h2.as_slice()) || has_prefix(s.as_slice(), 0, h1.as_slice()) {
        let title = if has_prefix(s.as_slice(), 0, h2.as_slice()) {
            strip_repeated_chars(s.as_slice(), h2.as_slice())
        } else {
            strip_repeated_chars(s.as_slice(), h1.as_slice())
        };
        push_span(&mut v, "  ", TextStyle::Dim);
        push_owned_span(&mut v, string_of(title.as_slice()), TextStyle::AccentBold);
        assert(spans_view(v@) =~= markdown_spans(line@, base, bold));
        return v;
    }
    let n = s.len();
    let mut pos: usize = 0;
    proof {
        assert(spans_view(v@) =~= Seq::<(Seq<char>, TextStyle)>::empty());
    }
    while pos < n
        invariant
            n == s@.len(),
            pos <= n,
            s@ == line@,
            styled_parts(md_inline(s@), base, bold) == spans_view(v@) + styled_parts(
                md_inline(s@.skip(pos as int)),
                base,
                bold,
            ),
        decreases n - pos,
    {
        let step = md_step(s.as_slice(), pos);
        let ghost before = spans_view(v@);
        let ghost rest = md_inline(s@.skip(step.next as int));
        let ghost part = (s@.subrange(step.from as int, step.to as int), step.kind);
        push_part(&mut v, s.as_slice(), step.from, step.to, part_style_of(step.kind, base, bold));
        proof {
            assert(styled_parts(seq![part] + rest, base, bold) =~= seq![
                (part.0, part_style(step.kind, base, bold)),
            ] + styled_parts(rest, base, bold));
            assert(spans_view(v@) + styled_parts(rest, base, bold) =~= before + styled_parts(
                seq![part] + rest,
                base,
                bold,
            ));
        }
        pos = step.next;
    }
    proof {
        assert(s@.skip(n as int) =~= Seq::<char>::empty());
        assert(styled_parts(Seq::empty(), base, bold) =~= Seq::<(Seq<char>, TextStyle)>::empty());
        assert(spans_view(v@) =~= styled_parts(md_inline(s@), base, bold));
    }
    v
}

} // verus!
