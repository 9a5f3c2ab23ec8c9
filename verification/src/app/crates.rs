//! The Crates tab's work with the outside world: the installed crates found by a
//! scan, browsing one of them, qualified-path search, and crate documentation
//! fetched in the background. The caller does the scanning, analysis and fetching;
//! these methods decide what is asked for and what the answers change.

use vstd::prelude::*;

use crate::analyzer::{AnalyzedItem, InstalledCrate};
use crate::crates_io::CrateDocInfo;
use crate::text::{
    chars_of, decimal, decimal_digits, lowercase, split_once, split_once_chars, string_of,
    trim_chars, trim_ws,
};
use crate::ui::app::Tab;
use super::filters::{dash_to_underscore, lowered_chars, replace_dash};
use super::state::{
    dependency_root, installed_filter_result, selected_dependency, App, CRATE_DOCS_CACHE_MAX,
};

verus! {

/// What a qualified-path search (`crate::path::Item`) found.
pub enum QualifiedSearch {
    /// The search input holds no `::`.
    NotQualified,
    /// No installed crate is named by the part before the first `::`.
    UnknownCrate,
    /// The installed crate `name` is meant; `select` says whether it must be selected
    /// (analyzed) first, and `rest` is the path after the crate name.
    Crate { name: String, select: bool, rest: String },
}

/// An installed crate's name stands for the lower-cased `wanted` when its lower-cased
/// form is `wanted`, also reading `-` in it as `_`.
pub open spec fn crate_name_matches(name: Seq<char>, wanted: Seq<char>) -> bool {
    lowercase(name) == wanted || replace_dash(lowercase(name)) == wanted
}

/// The position of the first installed crate that stands for the lower-cased `wanted`.
pub open spec fn first_matching_crate(names: Seq<String>, wanted: Seq<char>) -> Option<int> {
    if exists|i: int| 0 <= i < names.len() && crate_name_matches(#[trigger] names[i]@, wanted) {
        Some(
            choose|i: int|
                0 <= i < names.len() && crate_name_matches(#[trigger] names[i]@, wanted) && forall|
                    j: int,
                | 0 <= j < i ==> !crate_name_matches(#[trigger] names[j]@, wanted),
        )
    } else {
        None
    }
}

/// The installed crate being browsed is `wanted` (compared lower-cased).
pub open spec fn crate_already_selected(app: App, wanted: Seq<char>) -> bool {
    match app.selected_installed_crate {
        Some(c) => lowercase(c.name@) == lowercase(wanted),
        None => false,
    }
}

/// What a qualified-path search finds and changes: the trimmed search input is split
/// at its first `::`; an unknown crate only sets the status; for a known crate the
/// path after its name becomes the search input, and when the crate is the one
/// already browsed its items are filtered with that path (otherwise the crate must
/// be selected first).
pub open spec fn qualified_search_result(old: App, new: App, r: QualifiedSearch) -> bool {
    match split_once(trim_ws(old.search_input@), "::"@) {
        None => r is NotQualified && new == old,
        Some((krate, rest)) => match first_matching_crate(
            old.installed_crates_list@,
            lowercase(krate),
        ) {
            None => {
                &&& r is UnknownCrate
                &&& new == (App { status_message: new.status_message, ..old })
                &&& new.status_message@ == "Crate '"@ + krate + "' not found"@
            },
            Some(i) => {
                &&& r matches QualifiedSearch::Crate { name, select, rest: path }
                &&& name == old.installed_crates_list@[i]
                &&& select == !crate_already_selected(old, krate)
                &&& path@ == rest
                &&& new.search_input == path
                &&& if select {
                    new == (App { search_input: path, ..old })
                } else {
                    installed_filter_result(App { search_input: path, ..old }, new)
                }
            },
        },
    }
}

/// The state after selecting the installed crate `name` with the result of analyzing
/// it: its items (all listed, status `name: N items`) or the analysis error (status
/// `Analysis failed: ...`); nothing changes when the crate was not found.
pub open spec fn crate_selected(
    old: App,
    new: App,
    name: Seq<char>,
    found: Option<(InstalledCrate, Result<Vec<AnalyzedItem>, String>)>,
) -> bool {
    match found {
        None => new == old,
        Some((c, Ok(items))) => {
            &&& new == (App {
                selected_installed_crate: Some(c),
                installed_crate_items: items,
                installed_crate_filtered: new.installed_crate_filtered,
                status_message: new.status_message,
                ..old
            })
            &&& new.installed_crate_filtered@ == Seq::new(
                items@.len(),
                |i: int| i as usize,
            )
            &&& new.status_message@ == name + ": "@ + decimal_digits(items@.len()) + " items"@
        },
        Some((c, Err(e))) => {
            &&& new == (App {
                selected_installed_crate: Some(c),
                status_message: new.status_message,
                ..old
            })
            &&& new.status_message@ == "Analysis failed: "@ + e@
        },
    }
}

/// Whether documentation for `name` is being fetched.
pub open spec fn loading_is(loading: Option<String>, name: Seq<char>) -> bool {
    match loading {
        Some(l) => l@ == name,
        None => false,
    }
}

/// The crate whose documentation should be fetched now: the dependency selected on
/// the Crates tab, unless it is the root crate or its documentation is cached, being
/// fetched, or failed before.
pub open spec fn doc_fetch_target(app: App) -> Option<Seq<char>> {
    match selected_dependency(app) {
        None => None,
        Some(n) => if dependency_root(app) == Some(n) || app.crate_docs_cache.view().contains_key(n)
            || loading_is(app.crate_docs_loading, n) || app.crate_docs_failed@.contains_key(n) {
            None
        } else {
            Some(n)
        },
    }
}

/// The cache `new` after caching `info` for `name` in `old`: when the cache is full,
/// one cached crate is dropped first.
pub open spec fn cache_insert_result(
    old: Map<Seq<char>, CrateDocInfo>,
    name: Seq<char>,
    info: CrateDocInfo,
    new: Map<Seq<char>, CrateDocInfo>,
) -> bool {
    &&& old.len() < CRATE_DOCS_CACHE_MAX ==> new == old.insert(name, info)
    &&& old.len() >= CRATE_DOCS_CACHE_MAX ==> exists|evicted: Seq<char>|
        old.contains_key(evicted) && new == old.remove(evicted).insert(name, info)
}

/// The names of the failed fetches among the messages.
pub open spec fn failed_names(msgs: Seq<(String, Option<CrateDocInfo>)>) -> Set<Seq<char>> {
    Set::new(|k: Seq<char>| exists|j: int| 0 <= j < msgs.len() && msgs[j].1 is None && #[trigger] msgs[j].0@ == k)
}

/// Whether a message is about the crate named `name`.
pub open spec fn names_crate(msgs: Seq<(String, Option<CrateDocInfo>)>, name: Seq<char>) -> bool {
    exists|j: int| 0 <= j < msgs.len() && #[trigger] msgs[j].0@ == name
}

/// The crate being fetched after the messages arrived: none once a message about it
/// came.
pub open spec fn loading_after(loading: Option<String>, msgs: Seq<(String, Option<CrateDocInfo>)>) -> Option<String> {
    match loading {
        Some(l) => if names_crate(msgs, l@) {
            None
        } else {
            loading
        },
        None => None,
    }
}

/// Whether message `j` is the last one that brought documentation.
pub open spec fn last_doc_message(msgs: Seq<(String, Option<CrateDocInfo>)>, j: int) -> bool {
    &&& 0 <= j < msgs.len()
    &&& msgs[j].1 is Some
    &&& forall|k: int| j < k < msgs.len() ==> #[trigger] msgs[k].1 is None
}

/// Whether any message brought documentation.
pub open spec fn any_doc(msgs: Seq<(String, Option<CrateDocInfo>)>) -> bool {
    exists|j: int| 0 <= j < msgs.len() && #[trigger] msgs[j].1 is Some
}

fn chars_equal(a: &[char], b: &[char]) -> (r: bool)
    ensures
        r == (a@ == b@),
{
    if a.len() != b.len() {
        return false;
    }
    let mut i: usize = 0;
    while i < a.len()
        invariant
            a@.len() == b@.len(),
            i <= a@.len(),
            forall|j: int| 0 <= j < i ==> a@[j] == b@[j],
        decreases a@.len() - i,
    {
        if a[i] != b[i] {
            return false;
        }
        i = i + 1;
    }
    assert(a@ =~= b@);
    true
}

fn crate_name_matches_exec(name: &str, wanted: &[char]) -> (b: bool)
    ensures
        b == crate_name_matches(name@, wanted@),
{
    let lowered = lowered_chars(name);
    if chars_equal(lowered.as_slice(), wanted) {
        return true;
    }
    let replaced = dash_to_underscore(lowered.as_slice());
    chars_equal(replaced.as_slice(), wanted)
}

fn find_matching_crate(names: &Vec<String>, wanted: &[char]) -> (r: Option<usize>)
    ensures
        match r {
            Some(i) => i < names@.len() && first_matching_crate(names@, wanted@) == Some(i as int),
            None => first_matching_crate(names@, wanted@) is None,
        },
{
    let mut i: usize = 0;
    while i < names.len()
        invariant
            i <= names@.len(),
            forall|j: int| 0 <= j < i ==> !crate_name_matches(#[trigger] names@[j]@, wanted@),
        decreases names@.len() - i,
    {
        if crate_name_matches_exec(names[i].as_str(), wanted) {
            proof {
                let k = choose|k: int|
                    0 <= k < names@.len() && crate_name_matches(#[trigger] names@[k]@, wanted@)
                        && forall|j: int|
                        0 <= j < k ==> !crate_name_matches(#[trigger] names@[j]@, wanted@);
                assert(k == i) by {
                    if k < i {
                        assert(!crate_name_matches(names@[k]@, wanted@));
                    }
                    if i < k {
                        assert(!crate_name_matches(names@[i as int]@, wanted@));
                    }
                }
            }
            return Some(i);
        }
        i = i + 1;
    }
    None
}

impl App {
    /// Takes the result of scanning the installed crates: their names, with the status
    /// `Found N installed crates`; when the scan failed, the status stays
    /// `Scanning installed crates...` and the error is handed back.
    pub fn scan_installed_crates(&mut self, scanned: Result<Vec<String>, String>) -> (r: Result<
        (),
        String,
    >)
        ensures
            match scanned {
                Ok(names) => {
                    &&& r is Ok
                    &&& *final(self) == (App {
                        installed_crates_list: names,
                        status_message: final(self).status_message,
                        ..*old(self)
                    })
                    &&& final(self).status_message@ == "Found "@ + decimal_digits(names@.len())
                        + " installed crates"@
                },
                Err(e) => {
                    &&& r == Err::<(), String>(e)
                    &&& *final(self) == (App { status_message: final(self).status_message, ..*old(self) })
                    &&& final(self).status_message@ == "Scanning installed crates..."@
                },
            },
    {
        match scanned {
            Ok(names) => {
                let mut status = String::from_str("Found ");
                let count = decimal(names.len() as u64);
                status.append(count.as_str());
                status.append(" installed crates");
                self.installed_crates_list = names;
                self.status_message = status;
                Ok(())
            },
            Err(e) => {
                self.status_message = String::from_str("Scanning installed crates...");
                Err(e)
            },
        }
    }

    /// Selects the installed crate `name` with the result of analyzing it: its items
    /// (all listed, status `name: N items`) or the analysis error (status
    /// `Analysis failed: ...`). Nothing changes when the crate was not found.
    pub fn select_installed_crate(
        &mut self,
        name: &str,
        found: Option<(InstalledCrate, Result<Vec<AnalyzedItem>, String>)>,
    )
        ensures
            crate_selected(*old(self), *final(self), name@, found),
    {
        match found {
            None => {},
            Some((c, analysis)) => {
                self.selected_installed_crate = Some(c);
                match analysis {
                    Ok(items) => {
                        let n = items.len();
                        let mut all: Vec<usize> = Vec::new();
                        let mut i: usize = 0;
                        while i < n
                            invariant
                                i <= n,
                                all@ == Seq::new(i as nat, |k: int| k as usize),
                            decreases n - i,
                        {
                            all.push(i);
                            i = i + 1;
                        }
                        let mut status = String::from_str(name);
                        status.append(": ");
                        let count = decimal(n as u64);
                        status.append(count.as_str());
                        status.append(" items");
                        self.installed_crate_items = items;
                        self.installed_crate_filtered = all;
                        self.status_message = status;
                    },
                    Err(e) => {
                        let mut status = String::from_str("Analysis failed: ");
                        status.append(e.as_str());
                        self.status_message = status;
                    },
                }
            },
        }
    }

    /// Reads the search input as a qualified path `crate::path`: finds the installed
    /// crate it names and says whether it must be selected first. The path after the
    /// crate is then applied with [`App::finish_qualified_search`].
    pub fn search_qualified_path(&mut self) -> (r: QualifiedSearch)
        ensures
            qualified_search_result(*old(self), *final(self), r),
    {
        let input = chars_of(self.search_input.as_str());
        let query = trim_chars(input.as_slice());
        let sep = chars_of("::");
        match split_once_chars(query.as_slice(), sep.as_slice()) {
            None => QualifiedSearch::NotQualified,
            Some((krate, rest)) => {
                let wanted = lowered_chars(string_of(krate.as_slice()).as_str());
                match find_matching_crate(&self.installed_crates_list, wanted.as_slice()) {
                    None => {
                        let mut status = String::from_str("Crate '");
                        status.append(string_of(krate.as_slice()).as_str());
                        status.append("' not found");
                        self.status_message = status;
                        QualifiedSearch::UnknownCrate
                    },
                    Some(i) => {
                        let selected = match &self.selected_installed_crate {
                            Some(c) => chars_equal(
                                lowered_chars(c.name.as_str()).as_slice(),
                                wanted.as_slice(),
                            ),
                            None => false,
                        };
                        let path = string_of(rest.as_slice());
                        if selected {
                            self.finish_qualified_search(path.clone());
                        } else {
                            self.search_input = path.clone();
                        }
                        QualifiedSearch::Crate {
                            name: self.installed_crates_list[i].clone(),
                            select: !selected,
                            rest: path,
                        }
                    },
                }
            },
        }
    }

    /// Makes the path after the crate name the search input and filters the installed
    /// crate's items with it.
    pub fn finish_qualified_search(&mut self, rest: String)
        ensures
            installed_filter_result(App { search_input: rest, ..*old(self) }, *final(self)),
    {
        self.search_input = rest;
        self.filter_installed_crates();
    }

    /// Takes fetched documentation for `name` (`None` when the fetch failed): it stops
    /// being loading, and is cached or remembered as failed.
    pub fn receive_crate_doc(&mut self, name: String, doc: Option<CrateDocInfo>)
        ensures
            *final(self) == (App {
                crate_docs_loading: final(self).crate_docs_loading,
                crate_docs_cache: final(self).crate_docs_cache,
                crate_docs_failed: final(self).crate_docs_failed,
                ..*old(self)
            }),
            final(self).crate_docs_loading == if loading_is(old(self).crate_docs_loading, name@) {
                None
            } else {
                old(self).crate_docs_loading
            },
            match doc {
                Some(info) => {
                    &&& cache_insert_result(
                        old(self).crate_docs_cache.view(),
                        name@,
                        info,
                        final(self).crate_docs_cache.view(),
                    )
                    &&& final(self).crate_docs_cache.view().len() <= CRATE_DOCS_CACHE_MAX
                    &&& final(self).crate_docs_failed@ == old(self).crate_docs_failed@
                },
                None => {
                    &&& final(self).crate_docs_cache == old(self).crate_docs_cache
                    &&& final(self).crate_docs_failed@ == old(self).crate_docs_failed@.insert(name@, ())
                },
            },
    {
        let is_loading = match &self.crate_docs_loading {
            Some(l) => *l == name,
            None => false,
        };
        if is_loading {
            self.crate_docs_loading = None;
        }
        match doc {
            Some(info) => {
                self.crate_docs_cache.insert(name, info);
            },
            None => {
                self.crate_docs_failed.insert(name, ());
            },
        }
    }

    /// Takes the messages of finished fetches, in order (see
    /// [`App::receive_crate_doc`]): each is consumed; the crate being fetched stops
    /// being so once a message about it came; every failed crate is remembered; the
    /// documentation of the last message that brought some is cached; without such a
    /// message the cache is unchanged; and a cache within its bound stays within it.
    pub fn receive_crate_docs(&mut self, msgs: Vec<(String, Option<CrateDocInfo>)>)
        ensures
            *final(self) == (App {
                crate_docs_loading: final(self).crate_docs_loading,
                crate_docs_cache: final(self).crate_docs_cache,
                crate_docs_failed: final(self).crate_docs_failed,
                ..*old(self)
            }),
            final(self).crate_docs_loading == loading_after(old(self).crate_docs_loading, msgs@),
            final(self).crate_docs_failed@.dom() == old(self).crate_docs_failed@.dom().union(
                failed_names(msgs@),
            ),
            forall|j: int|
                #[trigger] last_doc_message(msgs@, j) ==> final(self).crate_docs_cache.view().contains_key(
                    msgs@[j].0@,
                ) && final(self).crate_docs_cache.view()[msgs@[j].0@] == msgs@[j].1->0,
            !any_doc(msgs@) ==> final(self).crate_docs_cache == old(self).crate_docs_cache,
            old(self).crate_docs_cache.view().len() <= CRATE_DOCS_CACHE_MAX
                ==> final(self).crate_docs_cache.view().len() <= CRATE_DOCS_CACHE_MAX,
    {
        let ghost start = *self;
        let ghost all = msgs@;
        let mut msgs = msgs;
        let mut i: usize = 0;
        assert(msgs.len() == all.len());
        while msgs.len() > 0
            invariant
                all.len() <= usize::MAX,
                i + msgs@.len() == all.len(),
                msgs@ == all.skip(i as int),
                *self == (App {
                    crate_docs_loading: self.crate_docs_loading,
                    crate_docs_cache: self.crate_docs_cache,
                    crate_docs_failed: self.crate_docs_failed,
                    ..start
                }),
                self.crate_docs_loading == loading_after(start.crate_docs_loading, all.take(i as int)),
                self.crate_docs_failed@.dom() == start.crate_docs_failed@.dom().union(
                    failed_names(all.take(i as int)),
                ),
                forall|j: int|
                    #[trigger] last_doc_message(all.take(i as int), j)
                        ==> self.crate_docs_cache.view().contains_key(all[j].0@)
                        && self.crate_docs_cache.view()[all[j].0@] == all[j].1->0,
                !any_doc(all.take(i as int)) ==> self.crate_docs_cache == start.crate_docs_cache,
                start.crate_docs_cache.view().len() <= CRATE_DOCS_CACHE_MAX
                    ==> self.crate_docs_cache.view().len() <= CRATE_DOCS_CACHE_MAX,
            decreases msgs@.len(),
        {
            let ghost before = *self;
            let ghost pre = all.take(i as int);
            let ghost post = all.take(i + 1);
            let (name, doc) = msgs.remove(0);
            proof {
                assert(all[i as int] == (name, doc));
                assert(msgs@ =~= all.skip(i + 1));
                assert(post =~= pre.push((name, doc)));
            }
            self.receive_crate_doc(name, doc);
            proof {
                let m = all[i as int];
                // The crate being fetched.
                match start.crate_docs_loading {
                    Some(l) => {
                        if names_crate(pre, l@) {
                            let j = choose|j: int| 0 <= j < pre.len() && #[trigger] pre[j].0@ == l@;
                            assert(post[j] == pre[j]);
                        } else if m.0@ == l@ {
                            assert(post[i as int] == m);
                        } else {
                            assert forall|j: int| 0 <= j < post.len() implies #[trigger] post[j].0@ != l@ by {
                                if j < i {
                                    assert(post[j] == pre[j]);
                                }
                            }
                        }
                    },
                    None => {},
                }
                // The failed crates.
                assert(failed_names(post) =~= failed_names(pre).union(
                    if m.1 is None {
                        set![m.0@]
                    } else {
                        Set::empty()
                    },
                )) by {
                    assert forall|k: Seq<char>| failed_names(post).contains(k) implies failed_names(pre).union(
                        if m.1 is None {
                            set![m.0@]
                        } else {
                            Set::empty()
                        },
                    ).contains(k) by {
                        let j = choose|j: int| 0 <= j < post.len() && post[j].1 is None && #[trigger] post[j].0@ == k;
                        if j < i {
                            assert(post[j] == pre[j]);
                        }
                    }
                    assert forall|k: Seq<char>| failed_names(pre).contains(k) implies failed_names(post).contains(k) by {
                        let j = choose|j: int| 0 <= j < pre.len() && pre[j].1 is None && #[trigger] pre[j].0@ == k;
                        assert(post[j] == pre[j]);
                    }
                    if m.1 is None {
                        assert(post[i as int] == m);
                    }
                }
                // The cached documentation.
                assert forall|j: int| #[trigger] last_doc_message(post, j) implies self.crate_docs_cache.view().contains_key(
                    all[j].0@,
                ) && self.crate_docs_cache.view()[all[j].0@] == all[j].1->0 by {
                    if j < i {
                        assert(post[j] == pre[j]);
                        assert(post[i as int] == m);
                        assert(m.1 is None);
                        assert forall|k: int| j < k < pre.len() implies #[trigger] pre[k].1 is None by {
                            assert(post[k] == pre[k]);
                        }
                        assert(last_doc_message(pre, j));
                    } else {
                        assert(post[i as int] == m);
                    }
                }
                if !any_doc(post) {
                    assert(!(m.1 is Some)) by {
                        assert(post[i as int] == m);
                    }
                    assert(!any_doc(pre)) by {
                        if any_doc(pre) {
                            let j = choose|j: int| 0 <= j < pre.len() && #[trigger] pre[j].1 is Some;
                            assert(post[j] == pre[j]);
                        }
                    }
                }
            }
            i = i + 1;
        }
        proof {
            assert(all.take(i as int) =~= all);
        }
    }

    /// What the inspector needs of the selected dependency's documentation: the cached
    /// documentation, whether it is being fetched (also when nothing is selected and
    /// nothing is being fetched), and whether fetching it failed.
    pub fn selected_doc_state(&self) -> (r: (Option<&CrateDocInfo>, bool, bool))
        ensures
            match selected_dependency(*self) {
                Some(n) => {
                    &&& match r.0 {
                        Some(d) => self.crate_docs_cache.view().contains_key(n) && *d
                            == self.crate_docs_cache.view()[n],
                        None => !self.crate_docs_cache.view().contains_key(n),
                    }
                    &&& r.1 == loading_is(self.crate_docs_loading, n)
                    &&& r.2 == self.crate_docs_failed@.contains_key(n)
                },
                None => r.0 is None && r.1 == (self.crate_docs_loading is None) && !r.2,
            },
    {
        match self.selected_dependency_name() {
            Some(name) => {
                let doc = self.crate_docs_cache.get(name.as_str());
                let loading = match &self.crate_docs_loading {
                    Some(l) => *l == name,
                    None => false,
                };
                let failed = self.crate_docs_failed.contains_key(name.as_str());
                (doc, loading, failed)
            },
            None => (None, self.crate_docs_loading.is_none(), false),
        }
    }

    /// Starts fetching documentation for the dependency selected on the Crates tab when
    /// it is needed (see [`doc_fetch_target`]): marks it as loading and hands back the
    /// crate name to fetch.
    pub fn maybe_start_crate_doc_fetch(&mut self) -> (fetch: Option<String>)
        ensures
            match doc_fetch_target(*old(self)) {
                None => fetch is None && *final(self) == *old(self),
                Some(n) => {
                    &&& fetch matches Some(f) && f@ == n
                    &&& *final(self) == (App {
                        crate_docs_loading: final(self).crate_docs_loading,
                        ..*old(self)
                    })
                    &&& loading_is(final(self).crate_docs_loading, n)
                },
            },
    {
        if self.current_tab != Tab::Crates {
            return None;
        }
        let name = match self.selected_dependency_name() {
            Some(n) => n,
            None => return None,
        };
        let is_root = self.dependency_tree.len() > 0 && self.dependency_tree[0].0 == name;
        if is_root {
            return None;
        }
        let is_loading = match &self.crate_docs_loading {
            Some(l) => *l == name,
            None => false,
        };
        if self.crate_docs_cache.contains_key(name.as_str()) || is_loading
            || self.crate_docs_failed.contains_key(name.as_str()) {
            return None;
        }
        self.crate_docs_loading = Some(name.clone());
        Some(name)
    }
}

} // verus!
