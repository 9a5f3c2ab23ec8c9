//! Opening a project: the caller reads the manifest and the sources; these steps
//! take what was read and bring the application state up to date.

use vstd::prelude::*;

use crate::analyzer::dependency::{crate_info_of, dependency_tree_of, tree_view};
use crate::analyzer::{AnalyzedItem, DependencyAnalyzer};
use crate::text::{chars_of, decimal, decimal_digits, first_line_chars, string_of};
use super::state::{candidates_rebuilt, filter_result, summaries_cut_ok, summary_cut_ok, App};

verus! {

/// What opening the project at `path` with the analyzed manifest changes: the project
/// path, the root crate and its dependency tree (when the manifest names a root
/// package), and the status (`Analyzing PATH...`, or why the manifest analysis failed).
pub open spec fn project_opened(
    old: App,
    path: Seq<char>,
    manifest: Option<Result<DependencyAnalyzer, String>>,
    new: App,
) -> bool {
    let analyzing = "Analyzing "@ + path + "..."@;
    &&& new.project_path matches Some(p) && p@ == path
    &&& new == (App {
        project_path: new.project_path,
        status_message: new.status_message,
        crate_info: new.crate_info,
        dependency_tree: new.dependency_tree,
        ..old
    })
    &&& match manifest {
        Some(Ok(a)) => {
            &&& new.status_message@ == analyzing
            &&& match a.root() {
                Some(k) => {
                    &&& new.crate_info matches Some(info) && crate_info_of(info, a.packages()[k as int])
                    &&& tree_view(new.dependency_tree@) == dependency_tree_of(
                        a.packages(),
                        a.packages()[k as int].name@,
                    )
                },
                None => new.crate_info == old.crate_info && new.dependency_tree == old.dependency_tree,
            }
        },
        Some(Err(e)) => {
            &&& new.status_message@ == "Cargo analysis failed: "@ + e@
            &&& new.crate_info == old.crate_info
            &&& new.dependency_tree == old.dependency_tree
        },
        None => {
            &&& new.status_message@ == analyzing
            &&& new.crate_info == old.crate_info
            &&& new.dependency_tree == old.dependency_tree
        },
    }
}

/// The status once a project's sources were analyzed.
pub open spec fn analysis_status(path: Seq<char>, item_count: nat) -> Seq<char> {
    if item_count == 0 {
        "No Rust files found in "@ + path
    } else {
        "Found "@ + decimal_digits(item_count) + " items"@
    }
}

/// Whether the documentation summary of every item can be cut (see
/// [`summary_cut_ok`]).
pub fn summaries_fit(items: &[AnalyzedItem]) -> (b: bool)
    ensures
        b == summaries_cut_ok(items@),
{
    let mut i: usize = 0;
    while i < items.len()
        invariant
            i <= items@.len(),
            forall|j: int|
                0 <= j < i ==> match #[trigger] items@[j].documentation {
                    Some(d) => summary_cut_ok(d@),
                    None => true,
                },
        decreases items@.len() - i,
    {
        match &items[i].documentation {
            Some(d) => {
                let chars = chars_of(d.as_str());
                let line = string_of(first_line_chars(chars.as_slice()).as_slice());
                let s = line.as_str();
                if !(s.as_bytes().len() <= 40 || s.is_char_boundary(37)) {
                    assert(!summary_cut_ok(items@[i as int].documentation->0@));
                    return false;
                }
            },
            None => {},
        }
        i = i + 1;
    }
    true
}

impl App {
    /// Opens the project at `path`: an error when the path does not exist; otherwise
    /// records the path and takes the root crate and its dependency tree from the
    /// analyzed manifest (see [`project_opened`]).
    pub fn open_project(
        &mut self,
        path: &str,
        exists: bool,
        manifest: Option<Result<DependencyAnalyzer, String>>,
    ) -> (r: Result<(), String>)
        ensures
            !exists ==> *final(self) == *old(self),
            !exists ==> (r matches Err(e) && e@ == "Path does not exist: "@ + path@),
            exists ==> r is Ok && project_opened(*old(self), path@, manifest, *final(self)),
    {
        if !exists {
            let mut e = String::from_str("Path does not exist: ");
            e.append(path);
            return Err(e);
        }
        self.project_path = Some(String::from_str(path));
        let mut status = String::from_str("Analyzing ");
        status.append(path);
        status.append("...");
        self.status_message = status;
        match manifest {
            Some(Ok(analyzer)) => {
                match analyzer.root_package() {
                    Some(root) => {
                        self.dependency_tree = analyzer.dependency_tree(root.name.as_str());
                        self.crate_info = Some(root);
                    },
                    None => {},
                }
            },
            Some(Err(e)) => {
                let mut status = String::from_str("Cargo analysis failed: ");
                status.append(e.as_str());
                self.status_message = status;
            },
            None => {},
        }
        Ok(())
    }

    /// Finishes opening a project once its sources were analyzed: rebuilds the
    /// completions, filters, and reports how many items were found.
    pub fn finish_project_analysis(&mut self, path: &str, target_size_bytes: Option<u64>)
        requires
            summaries_cut_ok(old(self).items@),
        ensures
            exists|rebuilt: App|
                candidates_rebuilt(*old(self), rebuilt) && filter_result(
                    rebuilt,
                    App {
                        status_message: rebuilt.status_message,
                        target_size_bytes: rebuilt.target_size_bytes,
                        ..*final(self)
                    },
                ),
            final(self).status_message@ == analysis_status(path@, old(self).items@.len()),
            final(self).target_size_bytes == target_size_bytes,
    {
        self.update_candidates();
        let ghost rebuilt = *self;
        self.filter_items();
        let n = self.items.len();
        if n == 0 {
            let mut status = String::from_str("No Rust files found in ");
            status.append(path);
            self.status_message = status;
        } else {
            let mut status = String::from_str("Found ");
            let count = decimal(n as u64);
            status.append(count.as_str());
            status.append(" items");
            self.status_message = status;
        }
        self.target_size_bytes = target_size_bytes;
        proof {
            assert(filter_result(
                rebuilt,
                App {
                    status_message: rebuilt.status_message,
                    target_size_bytes: rebuilt.target_size_bytes,
                    ..*self
                },
            ));
        }
    }
}

} // verus!
