//! How the lists of the main view are filtered by the search input: crate names on
//! the Crates tab (sorted by name), analyzed items by tab and name, and the items
//! of an installed crate by name or path.

use vstd::prelude::*;

use crate::analyzer::{AnalyzedItem, ItemKind};
use crate::text::{all_ascii, ascii_lower, chars_of, contains_chars, contains_seq, lowercase, to_lowercase};
use crate::ui::app::Tab;
use crate::ui::search::{CandidateKind, CompletionCandidate};

verus! {

/// `s` with every `-` replaced by `_`.
pub open spec fn replace_dash(s: Seq<char>) -> Seq<char> {
    s.map_values(|c: char| if c == '-' { '_' } else { c })
}

/// `s` with every `::` removed, scanning from the left (`str::replace(s, "::", "")`).
pub open spec fn remove_double_colons(s: Seq<char>) -> Seq<char>
    decreases s.len(),
{
    if s.len() == 0 {
        Seq::empty()
    } else if s.len() >= 2 && s[0] == ':' && s[1] == ':' {
        remove_double_colons(s.skip(2))
    } else {
        seq![s[0]] + remove_double_colons(s.drop_first())
    }
}

/// `a` comes before `b` in the order of strings: lexicographic by character code
/// (the same order as comparing their UTF-8 bytes).
pub open spec fn chars_lt(a: Seq<char>, b: Seq<char>) -> bool
    decreases a.len(),
{
    if a.len() == 0 {
        b.len() > 0
    } else if b.len() == 0 {
        false
    } else if a[0] != b[0] {
        (a[0] as u32) < (b[0] as u32)
    } else {
        chars_lt(a.drop_first(), b.drop_first())
    }
}

/// A crate name is listed for `query` (already lower-cased) when the query is empty or
/// occurs in the lower-cased name, or in it with `-` read as `_`.
pub open spec fn dependency_matches(name: Seq<char>, query: Seq<char>) -> bool {
    query.len() == 0 || contains_seq(lowercase(name), query) || contains_seq(
        replace_dash(lowercase(name)),
        query,
    )
}

/// The positions of the dependency tree entries listed for `query`, in tree order.
pub open spec fn matching_dependencies(tree: Seq<(String, usize)>, query: Seq<char>) -> Seq<usize>
    decreases tree.len(),
{
    if tree.len() == 0 {
        Seq::empty()
    } else {
        let rest = matching_dependencies(tree.drop_last(), query);
        if dependency_matches(tree.last().0@, query) {
            rest.push((tree.len() - 1) as usize)
        } else {
            rest
        }
    }
}

/// Where position `i` goes in `sorted` (ordered by `keys`): after every position whose
/// key is not greater.
pub open spec fn key_insert_position(sorted: Seq<usize>, keys: Seq<Seq<char>>, i: usize) -> nat
    decreases sorted.len(),
{
    if sorted.len() == 0 {
        0
    } else if chars_lt(keys[i as int], keys[sorted[0] as int]) {
        0
    } else {
        1 + key_insert_position(sorted.drop_first(), keys, i)
    }
}

/// `s` stably sorted by increasing key.
pub open spec fn sorted_by_key(s: Seq<usize>, keys: Seq<Seq<char>>) -> Seq<usize>
    decreases s.len(),
{
    if s.len() == 0 {
        Seq::empty()
    } else {
        let sorted = sorted_by_key(s.drop_last(), keys);
        sorted.insert(key_insert_position(sorted, keys, s.last()) as int, s.last())
    }
}

/// The lower-cased names of the dependency tree entries.
pub open spec fn lowered_names(tree: Seq<(String, usize)>) -> Seq<Seq<char>> {
    tree.map_values(|e: (String, usize)| lowercase(e.0@))
}

/// The Crates tab list for `query` (already lower-cased): the positions of the
/// matching tree entries, in alphabetical order of their lower-cased names.
pub open spec fn dependency_list(tree: Seq<(String, usize)>, query: Seq<char>) -> Seq<usize> {
    sorted_by_key(matching_dependencies(tree, query), lowered_names(tree))
}

/// Whether `a` comes before `b`.
pub fn chars_less(a: &[char], b: &[char]) -> (r: bool)
    ensures
        r == chars_lt(a@, b@),
{
    let mut i: usize = 0;
    proof {
        assert(a@.skip(0) =~= a@);
        assert(b@.skip(0) =~= b@);
    }
    while i < a.len() && i < b.len() && a[i] == b[i]
        invariant
            i <= a@.len(),
            i <= b@.len(),
            a@.subrange(0, i as int) == b@.subrange(0, i as int),
            chars_lt(a@, b@) == chars_lt(a@.skip(i as int), b@.skip(i as int)),
        decreases a@.len() - i,
    {
        proof {
            assert(a@.skip(i as int).drop_first() =~= a@.skip(i + 1));
            assert(b@.skip(i as int).drop_first() =~= b@.skip(i + 1));
            assert(a@.skip(i as int)[0] == a@[i as int]);
            assert(b@.skip(i as int)[0] == b@[i as int]);
        }
        i = i + 1;
    }
    proof {
        if i < a@.len() {
            assert(a@.skip(i as int)[0] == a@[i as int]);
        }
        if i < b@.len() {
            assert(b@.skip(i as int)[0] == b@[i as int]);
        }
    }
    if i == a.len() {
        i < b.len()
    } else if i == b.len() {
        false
    } else {
        (a[i] as u32) < (b[i] as u32)
    }
}

/// The lower-cased characters of `s` (for an ASCII string, `A` to `Z` lowered).
pub fn lowered_chars(s: &str) -> (r: Vec<char>)
    ensures
        r@ == lowercase(s@),
        all_ascii(s@) ==> r@ == s@.map_values(|c: char| ascii_lower(c)),
{
    let l = to_lowercase(s);
    chars_of(l.as_str())
}

/// `s` with every `-` replaced by `_`.
pub fn dash_to_underscore(s: &[char]) -> (r: Vec<char>)
    ensures
        r@ == replace_dash(s@),
{
    let mut r: Vec<char> = Vec::new();
    let mut i: usize = 0;
    while i < s.len()
        invariant
            i <= s@.len(),
            r@ =~= replace_dash(s@.take(i as int)),
        decreases s@.len() - i,
    {
        let c = s[i];
        r.push(if c == '-' { '_' } else { c });
        i = i + 1;
    }
    proof {
        assert(s@.take(s@.len() as int) =~= s@);
    }
    r
}

/// Whether a crate name is listed for `query` (already lower-cased).
pub fn dependency_name_matches(name: &str, query: &[char]) -> (b: bool)
    ensures
        b == dependency_matches(name@, query@),
{
    if query.len() == 0 {
        return true;
    }
    let lowered = lowered_chars(name);
    if contains_chars(lowered.as_slice(), query) {
        return true;
    }
    let replaced = dash_to_underscore(lowered.as_slice());
    contains_chars(replaced.as_slice(), query)
}

/// The Crates tab list for `query` (already lower-cased).
pub fn filter_dependencies(tree: &[(String, usize)], query: &[char]) -> (r: Vec<usize>)
    ensures
        r@ == dependency_list(tree@, query@),
{
    let mut keys: Vec<Vec<char>> = Vec::new();
    let mut j: usize = 0;
    while j < tree.len()
        invariant
            j <= tree@.len(),
            keys@.len() == j,
            forall|k: int| 0 <= k < j ==> #[trigger] keys@[k]@ == lowercase(tree@[k].0@),
        decreases tree@.len() - j,
    {
        keys.push(lowered_chars(tree[j].0.as_str()));
        j = j + 1;
    }
    let ghost key_views = lowered_names(tree@);
    assert forall|k: int| 0 <= k < tree@.len() implies #[trigger] keys@[k]@ == key_views[k] by {}
    let mut sorted: Vec<usize> = Vec::new();
    let mut i: usize = 0;
    while i < tree.len()
        invariant
            i <= tree@.len(),
            keys@.len() == tree@.len(),
            key_views == lowered_names(tree@),
            forall|k: int| 0 <= k < tree@.len() ==> #[trigger] keys@[k]@ == key_views[k],
            sorted@ == sorted_by_key(matching_dependencies(tree@.take(i as int), query@), key_views),
            forall|k: int| 0 <= k < sorted@.len() ==> #[trigger] sorted@[k] < i,
        decreases tree@.len() - i,
    {
        let ghost prev = matching_dependencies(tree@.take(i as int), query@);
        proof {
            assert(tree@.take(i + 1).drop_last() =~= tree@.take(i as int));
            assert(tree@.take(i + 1).last() == tree@[i as int]);
        }
        if dependency_name_matches(tree[i].0.as_str(), query) {
            let mut pos: usize = 0;
            proof {
                assert(sorted@.skip(0) =~= sorted@);
            }
            while pos < sorted.len() && !chars_less(keys[i].as_slice(), keys[sorted[pos]].as_slice())
                invariant
                    pos <= sorted@.len(),
                    i < tree@.len(),
                    keys@.len() == tree@.len(),
                    forall|k: int| 0 <= k < tree@.len() ==> #[trigger] keys@[k]@ == key_views[k],
                    forall|k: int| 0 <= k < sorted@.len() ==> #[trigger] sorted@[k] < i,
                    key_insert_position(sorted@, key_views, i) == pos + key_insert_position(
                        sorted@.skip(pos as int),
                        key_views,
                        i,
                    ),
                decreases sorted@.len() - pos,
            {
                proof {
                    let t = sorted@.skip(pos as int);
                    assert(t[0] == sorted@[pos as int]);
                    assert(t.drop_first() =~= sorted@.skip(pos + 1));
                }
                pos = pos + 1;
            }
            proof {
                let t = sorted@.skip(pos as int);
                if pos < sorted@.len() {
                    assert(t[0] == sorted@[pos as int]);
                }
                assert(key_insert_position(t, key_views, i) == 0);
                assert(prev.push(i).drop_last() =~= prev);
            }
            let ghost before = sorted@;
            sorted.insert(pos, i);
            proof {
                assert forall|k: int| 0 <= k < sorted@.len() implies #[trigger] sorted@[k] < i + 1 by {
                    if k < pos {
                        assert(sorted@[k] == before[k]);
                    } else if k > pos {
                        assert(sorted@[k] == before[k - 1]);
                    }
                }
            }
        }
        i = i + 1;
    }
    proof {
        assert(tree@.take(tree@.len() as int) =~= tree@);
    }
    sorted
}

/// The item kinds listed on a tab (every kind on the Crates tab).
pub open spec fn tab_lists_kind(tab: Tab, kind: ItemKind) -> bool {
    match tab {
        Tab::Types => kind == ItemKind::Struct || kind == ItemKind::Enum || kind == ItemKind::TypeAlias,
        Tab::Functions => kind == ItemKind::Function,
        Tab::Modules => kind == ItemKind::Module,
        Tab::Crates => true,
    }
}

/// An item is listed on `tab` for `query` (already lower-cased) when the tab lists its
/// kind and the query is empty or occurs in its lower-cased name.
pub open spec fn item_matches(item: AnalyzedItem, tab: Tab, query: Seq<char>) -> bool {
    tab_lists_kind(tab, item.kind) && (query.len() == 0 || contains_seq(lowercase(item.name@), query))
}

/// The positions of the items listed on `tab` for `query`, in order.
pub open spec fn matching_items(items: Seq<AnalyzedItem>, tab: Tab, query: Seq<char>) -> Seq<usize>
    decreases items.len(),
{
    if items.len() == 0 {
        Seq::empty()
    } else {
        let rest = matching_items(items.drop_last(), tab, query);
        if item_matches(items.last(), tab, query) {
            rest.push((items.len() - 1) as usize)
        } else {
            rest
        }
    }
}

/// The completion kinds offered on a tab (none on the Crates tab).
pub open spec fn tab_offers_candidate(tab: Tab, kind: CandidateKind) -> bool {
    match tab {
        Tab::Types => kind == CandidateKind::Struct || kind == CandidateKind::Enum || kind
            == CandidateKind::Type,
        Tab::Functions => kind == CandidateKind::Function,
        Tab::Modules => kind == CandidateKind::Module,
        Tab::Crates => false,
    }
}

/// The candidates offered on `tab`, in order.
pub open spec fn candidates_for_tab(cs: Seq<CompletionCandidate>, tab: Tab) -> Seq<CompletionCandidate>
    decreases cs.len(),
{
    if cs.len() == 0 {
        Seq::empty()
    } else {
        let rest = candidates_for_tab(cs.drop_last(), tab);
        if tab_offers_candidate(tab, cs.last().kind) {
            rest.push(cs.last())
        } else {
            rest
        }
    }
}

/// An item of an installed crate is listed for `query` (already lower-cased): always
/// for an empty query; for a query holding `::`, when it occurs in the lower-cased
/// full path or the query without `::` occurs in a lower-cased enclosing module name;
/// otherwise when it occurs in the lower-cased name.
pub open spec fn installed_item_matches(item: AnalyzedItem, query: Seq<char>) -> bool {
    if query.len() == 0 {
        true
    } else if contains_seq(query, "::"@) {
        contains_seq(lowercase(item.qualified_name@), query) || exists|j: int|
            0 <= j < item.modules@.len() && contains_seq(
                lowercase(#[trigger] item.modules@[j]@),
                remove_double_colons(query),
            )
    } else {
        contains_seq(lowercase(item.name@), query)
    }
}

/// The positions of the installed crate's items listed for `query`, in order.
pub open spec fn matching_installed_items(items: Seq<AnalyzedItem>, query: Seq<char>) -> Seq<usize>
    decreases items.len(),
{
    if items.len() == 0 {
        Seq::empty()
    } else {
        let rest = matching_installed_items(items.drop_last(), query);
        if installed_item_matches(items.last(), query) {
            rest.push((items.len() - 1) as usize)
        } else {
            rest
        }
    }
}

fn tab_lists_kind_exec(tab: Tab, kind: ItemKind) -> (b: bool)
    ensures
        b == tab_lists_kind(tab, kind),
{
    match tab {
        Tab::Types => match kind {
            ItemKind::Struct | ItemKind::Enum | ItemKind::TypeAlias => true,
            _ => false,
        },
        Tab::Functions => match kind {
            ItemKind::Function => true,
            _ => false,
        },
        Tab::Modules => match kind {
            ItemKind::Module => true,
            _ => false,
        },
        Tab::Crates => true,
    }
}

/// The items listed on `tab` for `query` (already lower-cased).
pub fn filter_items_by_tab(items: &[AnalyzedItem], tab: Tab, query: &[char]) -> (r: Vec<usize>)
    ensures
        r@ == matching_items(items@, tab, query@),
{
    let mut r: Vec<usize> = Vec::new();
    let mut i: usize = 0;
    while i < items.len()
        invariant
            i <= items@.len(),
            r@ == matching_items(items@.take(i as int), tab, query@),
        decreases items@.len() - i,
    {
        proof {
            assert(items@.take(i + 1).drop_last() =~= items@.take(i as int));
            assert(items@.take(i + 1).last() == items@[i as int]);
        }
        let item = &items[i];
        let mut listed = tab_lists_kind_exec(tab, item.kind);
        if listed && query.len() > 0 {
            let name = lowered_chars(item.name.as_str());
            listed = contains_chars(name.as_slice(), query);
        }
        if listed {
            r.push(i);
        }
        i = i + 1;
    }
    proof {
        assert(items@.take(items@.len() as int) =~= items@);
    }
    r
}

fn tab_offers_candidate_exec(tab: Tab, kind: CandidateKind) -> (b: bool)
    ensures
        b == tab_offers_candidate(tab, kind),
{
    match tab {
        Tab::Types => match kind {
            CandidateKind::Struct | CandidateKind::Enum | CandidateKind::Type => true,
            _ => false,
        },
        Tab::Functions => match kind {
            CandidateKind::Function => true,
            _ => false,
        },
        Tab::Modules => match kind {
            CandidateKind::Module => true,
            _ => false,
        },
        Tab::Crates => false,
    }
}

/// The candidates offered on `tab`.
pub fn filter_candidates_by_tab(cs: Vec<CompletionCandidate>, tab: Tab) -> (r: Vec<CompletionCandidate>)
    ensures
        r@ == candidates_for_tab(cs@, tab),
{
    let mut r: Vec<CompletionCandidate> = Vec::new();
    let mut i: usize = 0;
    while i < cs.len()
        invariant
            i <= cs@.len(),
            r@ == candidates_for_tab(cs@.take(i as int), tab),
        decreases cs@.len() - i,
    {
        proof {
            assert(cs@.take(i + 1).drop_last() =~= cs@.take(i as int));
            assert(cs@.take(i + 1).last() == cs@[i as int]);
        }
        if tab_offers_candidate_exec(tab, cs[i].kind) {
            r.push(cs[i].duplicate());
        }
        i = i + 1;
    }
    proof {
        assert(cs@.take(cs@.len() as int) =~= cs@);
    }
    r
}

/// `s` with every `::` removed.
pub fn remove_double_colons_exec(s: &[char]) -> (r: Vec<char>)
    ensures
        r@ == remove_double_colons(s@),
{
    let mut r: Vec<char> = Vec::new();
    let mut i: usize = 0;
    proof {
        assert(s@.skip(0) =~= s@);
    }
    while i < s.len()
        invariant
            i <= s@.len(),
            r@ + remove_double_colons(s@.skip(i as int)) == remove_double_colons(s@),
        decreases s@.len() - i,
    {
        let ghost t = s@.skip(i as int);
        proof {
            assert(t[0] == s@[i as int]);
            if t.len() >= 2 {
                assert(t[1] == s@[i + 1]);
            }
        }
        if i + 1 < s.len() && s[i] == ':' && s[i + 1] == ':' {
            proof {
                assert(t.skip(2) =~= s@.skip(i + 2));
            }
            i = i + 2;
        } else {
            let ghost before = r@;
            r.push(s[i]);
            proof {
                assert(t.drop_first() =~= s@.skip(i + 1));
                assert(r@ + remove_double_colons(s@.skip(i + 1)) =~= before + (seq![s@[i as int]]
                    + remove_double_colons(s@.skip(i + 1))));
            }
            i = i + 1;
        }
    }
    proof {
        assert(s@.skip(i as int) =~= Seq::<char>::empty());
        assert(r@ + Seq::<char>::empty() =~= r@);
    }
    r
}

/// Whether an item of an installed crate is listed for `query` (already lower-cased).
pub fn installed_item_matches_exec(item: &AnalyzedItem, query: &[char]) -> (b: bool)
    ensures
        b == installed_item_matches(*item, query@),
{
    if query.len() == 0 {
        return true;
    }
    let sep = chars_of("::");
    if contains_chars(query, sep.as_slice()) {
        let path = lowered_chars(item.qualified_name.as_str());
        if contains_chars(path.as_slice(), query) {
            return true;
        }
        let stripped = remove_double_colons_exec(query);
        let mut j: usize = 0;
        while j < item.modules.len()
            invariant
                j <= item.modules@.len(),
                query@.len() > 0,
                contains_seq(query@, "::"@),
                stripped@ == remove_double_colons(query@),
                forall|k: int|
                    0 <= k < j ==> !contains_seq(
                        lowercase(#[trigger] item.modules@[k]@),
                        remove_double_colons(query@),
                    ),
            decreases item.modules@.len() - j,
        {
            let m = lowered_chars(item.modules[j].as_str());
            if contains_chars(m.as_slice(), stripped.as_slice()) {
                assert(contains_seq(lowercase(item.modules@[j as int]@), remove_double_colons(query@)));
                return true;
            }
            j = j + 1;
        }
        false
    } else {
        let name = lowered_chars(item.name.as_str());
        contains_chars(name.as_slice(), query)
    }
}

/// The installed crate's items listed for `query` (already lower-cased).
pub fn filter_installed_items(items: &[AnalyzedItem], query: &[char]) -> (r: Vec<usize>)
    ensures
        r@ == matching_installed_items(items@, query@),
{
    let mut r: Vec<usize> = Vec::new();
    let mut i: usize = 0;
    while i < items.len()
        invariant
            i <= items@.len(),
            r@ == matching_installed_items(items@.take(i as int), query@),
        decreases items@.len() - i,
    {
        proof {
            assert(items@.take(i + 1).drop_last() =~= items@.take(i as int));
            assert(items@.take(i + 1).last() == items@[i as int]);
        }
        if installed_item_matches_exec(&items[i], query) {
            r.push(i);
        }
        i = i + 1;
    }
    proof {
        assert(items@.take(items@.len() as int) =~= items@);
    }
    r
}

proof fn lemma_chars_lt_irreflexive(a: Seq<char>)
    ensures
        !chars_lt(a, a),
    decreases a.len(),
{
    if a.len() > 0 {
        lemma_chars_lt_irreflexive(a.drop_first());
    }
}

proof fn lemma_chars_lt_transitive(a: Seq<char>, b: Seq<char>, c: Seq<char>)
    requires
        chars_lt(a, b),
        chars_lt(b, c),
    ensures
        chars_lt(a, c),
    decreases a.len(),
{
    if a.len() > 0 && b.len() > 0 && c.len() > 0 && a[0] == b[0] && b[0] == c[0] {
        lemma_chars_lt_transitive(a.drop_first(), b.drop_first(), c.drop_first());
    }
}

proof fn lemma_chars_lt_asymmetric(a: Seq<char>, b: Seq<char>)
    requires
        chars_lt(a, b),
    ensures
        !chars_lt(b, a),
    decreases a.len(),
{
    if a.len() > 0 && b.len() > 0 && a[0] == b[0] {
        lemma_chars_lt_asymmetric(a.drop_first(), b.drop_first());
    }
}

proof fn lemma_key_insert_position(sorted: Seq<usize>, keys: Seq<Seq<char>>, i: usize)
    ensures
        key_insert_position(sorted, keys, i) <= sorted.len(),
        forall|k: int|
            0 <= k < key_insert_position(sorted, keys, i) ==> !chars_lt(
                keys[i as int],
                keys[#[trigger] sorted[k] as int],
            ),
        key_insert_position(sorted, keys, i) < sorted.len() ==> chars_lt(
            keys[i as int],
            keys[sorted[key_insert_position(sorted, keys, i) as int] as int],
        ),
    decreases sorted.len(),
{
    if sorted.len() > 0 && !chars_lt(keys[i as int], keys[sorted[0] as int]) {
        lemma_key_insert_position(sorted.drop_first(), keys, i);
        assert forall|k: int| 0 <= k < key_insert_position(sorted, keys, i) implies !chars_lt(
            keys[i as int],
            keys[#[trigger] sorted[k] as int],
        ) by {
            if k > 0 {
                assert(sorted[k] == sorted.drop_first()[k - 1]);
            }
        }
    }
}

proof fn lemma_sorted_by_key(s: Seq<usize>, keys: Seq<Seq<char>>)
    ensures
        sorted_by_key(s, keys).len() == s.len(),
        sorted_by_key(s, keys).to_multiset() == s.to_multiset(),
        forall|i: int, j: int|
            0 <= i < j < sorted_by_key(s, keys).len() ==> !chars_lt(
                keys[#[trigger] sorted_by_key(s, keys)[j] as int],
                keys[#[trigger] sorted_by_key(s, keys)[i] as int],
            ),
    decreases s.len(),
{
    broadcast use vstd::seq_lib::group_to_multiset_ensures;

    if s.len() > 0 {
        let prev = sorted_by_key(s.drop_last(), keys);
        lemma_sorted_by_key(s.drop_last(), keys);
        let x = s.last();
        lemma_key_insert_position(prev, keys, x);
        let p = key_insert_position(prev, keys, x) as int;
        let out = prev.insert(p, x);
        assert(out == sorted_by_key(s, keys));
        assert(s.drop_last().push(x) =~= s);
        assert forall|i: int, j: int| 0 <= i < j < out.len() implies !chars_lt(
            keys[#[trigger] out[j] as int],
            keys[#[trigger] out[i] as int],
        ) by {
            if j < p {
            } else if j == p {
                assert(out[i] == prev[i]);
            } else if i < p {
                assert(out[j] == prev[j - 1]);
            } else if i == p {
                assert(out[j] == prev[j - 1]);
                let xk = keys[x as int];
                let pk = keys[prev[p] as int];
                let jk = keys[prev[j - 1] as int];
                if chars_lt(jk, xk) {
                    lemma_chars_lt_transitive(jk, xk, pk);
                    if j - 1 == p {
                        lemma_chars_lt_irreflexive(pk);
                    } else {
                        assert(!chars_lt(jk, pk));
                    }
                }
            } else {
                assert(out[i] == prev[i - 1]);
                assert(out[j] == prev[j - 1]);
            }
        }
    }
}

proof fn lemma_matching_dependencies(tree: Seq<(String, usize)>, query: Seq<char>)
    requires
        tree.len() <= usize::MAX,
    ensures
        forall|k: int|
            0 <= k < matching_dependencies(tree, query).len() ==> #[trigger] matching_dependencies(
                tree,
                query,
            )[k] < tree.len(),
        forall|k: int|
            0 <= k < tree.len() ==> matching_dependencies(tree, query).to_multiset().count(
                k as usize,
            ) == if dependency_matches(#[trigger] tree[k].0@, query) {
                1nat
            } else {
                0nat
            },
    decreases tree.len(),
{
    broadcast use vstd::seq_lib::group_to_multiset_ensures, vstd::multiset::group_multiset_axioms;

    if tree.len() > 0 {
        let prev = tree.drop_last();
        lemma_matching_dependencies(prev, query);
        let rest = matching_dependencies(prev, query);
        let n = (tree.len() - 1) as usize;
        assert(rest.to_multiset().count(n) == 0) by {
            if rest.to_multiset().count(n) > 0 {
                assert(rest.contains(n));
                let k = choose|k: int| 0 <= k < rest.len() && rest[k] == n;
                assert(rest[k] < prev.len());
            }
        }
        assert forall|k: int| 0 <= k < tree.len() implies matching_dependencies(
            tree,
            query,
        ).to_multiset().count(k as usize) == if dependency_matches(#[trigger] tree[k].0@, query) {
            1nat
        } else {
            0nat
        } by {
            if k < tree.len() - 1 {
                assert(tree[k] == prev[k]);
            }
        }
    }
}

/// The Crates tab list is in alphabetical order of the lower-cased crate names.
pub proof fn lemma_dependency_list_sorted(tree: Seq<(String, usize)>, query: Seq<char>)
    requires
        tree.len() <= usize::MAX,
    ensures
        forall|i: int, j: int|
            0 <= i < j < dependency_list(tree, query).len() ==> !chars_lt(
                lowercase(tree[#[trigger] dependency_list(tree, query)[j] as int].0@),
                lowercase(tree[#[trigger] dependency_list(tree, query)[i] as int].0@),
            ),
{
    broadcast use vstd::seq_lib::group_to_multiset_ensures;

    let m = matching_dependencies(tree, query);
    let keys = lowered_names(tree);
    lemma_sorted_by_key(m, keys);
    lemma_matching_dependencies(tree, query);
    let out = dependency_list(tree, query);
    assert forall|k: int| 0 <= k < out.len() implies #[trigger] out[k] < tree.len() by {
        assert(out.contains(out[k]));
        assert(out.to_multiset().count(out[k]) > 0);
        assert(m.to_multiset().count(out[k]) > 0);
        assert(m.contains(out[k]));
        let j = choose|j: int| 0 <= j < m.len() && m[j] == out[k];
        assert(m[j] < tree.len());
    }
    assert forall|i: int, j: int| 0 <= i < j < out.len() implies !chars_lt(
        lowercase(tree[#[trigger] out[j] as int].0@),
        lowercase(tree[#[trigger] out[i] as int].0@),
    ) by {
        assert(keys[out[j] as int] == lowercase(tree[out[j] as int].0@));
        assert(keys[out[i] as int] == lowercase(tree[out[i] as int].0@));
    }
}

/// The Crates tab list holds each dependency tree entry that matches the query
/// exactly once, and nothing else.
pub proof fn lemma_dependency_list_exact(tree: Seq<(String, usize)>, query: Seq<char>)
    requires
        tree.len() <= usize::MAX,
    ensures
        forall|k: int|
            0 <= k < dependency_list(tree, query).len() ==> #[trigger] dependency_list(
                tree,
                query,
            )[k] < tree.len(),
        forall|k: int|
            0 <= k < tree.len() ==> dependency_list(tree, query).to_multiset().count(k as usize)
                == if dependency_matches(#[trigger] tree[k].0@, query) {
                1nat
            } else {
                0nat
            },
{
    broadcast use vstd::seq_lib::group_to_multiset_ensures;

    let m = matching_dependencies(tree, query);
    lemma_sorted_by_key(m, lowered_names(tree));
    lemma_matching_dependencies(tree, query);
    let out = dependency_list(tree, query);
    assert forall|k: int| 0 <= k < out.len() implies #[trigger] out[k] < tree.len() by {
        assert(out.contains(out[k]));
        assert(out.to_multiset().count(out[k]) > 0);
        assert(m.to_multiset().count(out[k]) > 0);
        assert(m.contains(out[k]));
        let j = choose|j: int| 0 <= j < m.len() && m[j] == out[k];
        assert(m[j] < tree.len());
    }
}

/// `a` comes before `b` in dictionary order: `a` is a proper prefix of `b`, or at the
/// first position where they differ `a` has the smaller character code.
pub open spec fn dictionary_before(a: Seq<char>, b: Seq<char>) -> bool {
    ||| a.len() < b.len() && b.take(a.len() as int) == a
    ||| exists|i: int|
        0 <= i < a.len() && i < b.len() && #[trigger] a.take(i) == b.take(i) && (a[i] as u32) < (
        b[i] as u32)
}

/// The order the Crates tab sorts names by is dictionary order: a proper prefix comes
/// first, otherwise the first differing character decides, whatever the lengths.
pub proof fn lemma_chars_lt_is_dictionary_order(a: Seq<char>, b: Seq<char>)
    ensures
        chars_lt(a, b) == dictionary_before(a, b),
    decreases a.len(),
{
    if a.len() == 0 {
        assert(b.take(0) =~= a);
    } else if b.len() == 0 {
    } else if a[0] != b[0] {
        if (a[0] as u32) < (b[0] as u32) {
            assert(a.take(0) =~= b.take(0));
        }
        if dictionary_before(a, b) {
            if a.len() < b.len() && b.take(a.len() as int) == a {
                assert(b.take(a.len() as int)[0] == b[0]);
            } else {
                let i = choose|i: int|
                    0 <= i < a.len() && i < b.len() && #[trigger] a.take(i) == b.take(i) && (a[i] as u32)
                        < (b[i] as u32);
                if i > 0 {
                    assert(a.take(i)[0] == b.take(i)[0]);
                }
            }
        }
    } else {
        let a1 = a.drop_first();
        let b1 = b.drop_first();
        lemma_chars_lt_is_dictionary_order(a1, b1);
        // Prefixes.
        if a.len() < b.len() {
            if b.take(a.len() as int) == a {
                assert(b1.take(a1.len() as int) =~= a1) by {
                    assert forall|k: int| 0 <= k < a1.len() implies #[trigger] b1.take(a1.len() as int)[k] == a1[k] by {
                        assert(b.take(a.len() as int)[k + 1] == a[k + 1]);
                    }
                }
            }
            if b1.take(a1.len() as int) == a1 {
                assert(b.take(a.len() as int) =~= a) by {
                    assert forall|k: int| 0 <= k < a.len() implies #[trigger] b.take(a.len() as int)[k] == a[k] by {
                        if k > 0 {
                            assert(b1.take(a1.len() as int)[k - 1] == a1[k - 1]);
                        }
                    }
                }
            }
        }
        // First differences.
        if exists|i: int|
            0 <= i < a.len() && i < b.len() && #[trigger] a.take(i) == b.take(i) && (a[i] as u32) < (
            b[i] as u32) {
            let i = choose|i: int|
                0 <= i < a.len() && i < b.len() && #[trigger] a.take(i) == b.take(i) && (a[i] as u32) < (
                b[i] as u32);
            assert(i > 0);
            assert(a1.take(i - 1) =~= b1.take(i - 1)) by {
                assert forall|k: int| 0 <= k < i - 1 implies #[trigger] a1.take(i - 1)[k] == b1.take(i - 1)[k] by {
                    assert(a.take(i)[k + 1] == b.take(i)[k + 1]);
                }
            }
            assert(a1[i - 1] == a[i] && b1[i - 1] == b[i]);
        }
        if exists|i: int|
            0 <= i < a1.len() && i < b1.len() && #[trigger] a1.take(i) == b1.take(i) && (a1[i] as u32)
                < (b1[i] as u32) {
            let i = choose|i: int|
                0 <= i < a1.len() && i < b1.len() && #[trigger] a1.take(i) == b1.take(i) && (a1[i] as u32)
                    < (b1[i] as u32);
            assert(a.take(i + 1) =~= b.take(i + 1)) by {
                assert forall|k: int| 0 <= k < i + 1 implies #[trigger] a.take(i + 1)[k] == b.take(i + 1)[k] by {
                    if k > 0 {
                        assert(a1.take(i)[k - 1] == b1.take(i)[k - 1]);
                    }
                }
            }
            assert(a[i + 1] == a1[i] && b[i + 1] == b1[i]);
        }
    }
}

/// The Crates tab lists names alphabetically: no listed name comes, in dictionary
/// order, before a name listed above it.
pub proof fn lemma_dependency_list_alphabetical(tree: Seq<(String, usize)>, query: Seq<char>)
    requires
        tree.len() <= usize::MAX,
    ensures
        forall|i: int, j: int|
            0 <= i < j < dependency_list(tree, query).len() ==> !dictionary_before(
                lowercase(tree[#[trigger] dependency_list(tree, query)[j] as int].0@),
                lowercase(tree[#[trigger] dependency_list(tree, query)[i] as int].0@),
            ),
{
    lemma_dependency_list_sorted(tree, query);
    let out = dependency_list(tree, query);
    assert forall|i: int, j: int| 0 <= i < j < out.len() implies !dictionary_before(
        lowercase(tree[#[trigger] out[j] as int].0@),
        lowercase(tree[#[trigger] out[i] as int].0@),
    ) by {
        lemma_chars_lt_is_dictionary_order(
            lowercase(tree[out[j] as int].0@),
            lowercase(tree[out[i] as int].0@),
        );
    }
}

proof fn lemma_matching_items(items: Seq<AnalyzedItem>, tab: Tab, query: Seq<char>)
    requires
        items.len() <= usize::MAX,
    ensures
        forall|a: int|
            0 <= a < matching_items(items, tab, query).len() ==> #[trigger] matching_items(items, tab, query)[a]
                < items.len(),
        forall|a: int, b: int|
            0 <= a < b < matching_items(items, tab, query).len() ==> #[trigger] matching_items(items, tab, query)[a]
                < #[trigger] matching_items(items, tab, query)[b],
        forall|k: int|
            0 <= k < items.len() ==> (matching_items(items, tab, query).contains(k as usize) <==> item_matches(
                #[trigger] items[k],
                tab,
                query,
            )),
    decreases items.len(),
{
    if items.len() > 0 {
        let prev = items.drop_last();
        lemma_matching_items(prev, tab, query);
        let rest = matching_items(prev, tab, query);
        let out = matching_items(items, tab, query);
        let last = (items.len() - 1) as usize;
        assert forall|k: int| 0 <= k < items.len() implies (out.contains(k as usize) <==> item_matches(
            #[trigger] items[k],
            tab,
            query,
        )) by {
            if k < items.len() - 1 {
                assert(prev[k] == items[k]);
                if out.contains(k as usize) {
                    let a = choose|a: int| 0 <= a < out.len() && out[a] == k as usize;
                    if a < rest.len() {
                        assert(out[a] == rest[a]);
                    }
                }
                if rest.contains(k as usize) {
                    let a = choose|a: int| 0 <= a < rest.len() && rest[a] == k as usize;
                    assert(out[a] == rest[a]);
                }
            } else {
                if item_matches(items.last(), tab, query) {
                    assert(out[rest.len() as int] == last);
                } else if out.contains(k as usize) {
                    let a = choose|a: int| 0 <= a < out.len() && out[a] == k as usize;
                    assert(rest[a] < prev.len());
                }
            }
        }
    }
}

/// Each tab lists exactly its kinds of item, in order: structs, enums and type
/// aliases on the Types tab, functions on the Functions tab, modules on the Modules
/// tab (and every item on the Crates tab), when the query is empty or occurs in the
/// item's lower-cased name.
pub proof fn lemma_tab_lists_its_kinds(items: Seq<AnalyzedItem>, tab: Tab, query: Seq<char>)
    requires
        items.len() <= usize::MAX,
    ensures
        forall|k: int|
            0 <= k < items.len() ==> (matching_items(items, tab, query).contains(k as usize) <==> {
                &&& match tab {
                    Tab::Types => items[k].kind == ItemKind::Struct || items[k].kind == ItemKind::Enum
                        || items[k].kind == ItemKind::TypeAlias,
                    Tab::Functions => items[k].kind == ItemKind::Function,
                    Tab::Modules => items[k].kind == ItemKind::Module,
                    Tab::Crates => true,
                }
                &&& query.len() == 0 || contains_seq(lowercase(#[trigger] items[k].name@), query)
            }),
        forall|a: int, b: int|
            0 <= a < b < matching_items(items, tab, query).len() ==> #[trigger] matching_items(items, tab, query)[a]
                < #[trigger] matching_items(items, tab, query)[b],
{
    lemma_matching_items(items, tab, query);
    assert forall|k: int| 0 <= k < items.len() implies (matching_items(items, tab, query).contains(k as usize) <==> {
        &&& match tab {
            Tab::Types => items[k].kind == ItemKind::Struct || items[k].kind == ItemKind::Enum
                || items[k].kind == ItemKind::TypeAlias,
            Tab::Functions => items[k].kind == ItemKind::Function,
            Tab::Modules => items[k].kind == ItemKind::Module,
            Tab::Crates => true,
        }
        &&& query.len() == 0 || contains_seq(lowercase(#[trigger] items[k].name@), query)
    }) by {
        assert(item_matches(items[k], tab, query) == (matching_items(items, tab, query).contains(k as usize)));
    }
}

} // verus!
