//! Directory selectors.
//!
//! A rule may leave the choice of its directory to what is on disk: the
//! selector `first` takes, among the directories that match a glob, the one
//! that comes first in the order of a dictionary, and `last` the one that
//! comes last. The glob is the root, then the selector's arguments as path
//! segments, then `*`.

use vstd::prelude::*;
use vstd::string::*;
use crate::errors::{Error, ErrorView};
use crate::paths::{full_path, join_all, joined, joined_all};
use crate::processor::{marker_resolved, resolve_directory};
use crate::rules::{clone_optional_texts, same_optional_texts, Rule, RuleView};
use crate::text::{
    chars_of, lemma_lex_le_refl, lemma_lex_le_total, lemma_lex_le_trans, lex_le, lex_le_chars,
};

verus! {

/// The arguments of a selector: path segments under the root.
pub type ArgumentList = Vec<String>;

/// A selector of one directory among those that match a glob.
#[derive(Debug, PartialEq, Eq)]
pub enum FolderFunction {
    /// The directory that comes last in the order of a dictionary.
    Last { args: Option<ArgumentList> },
    /// The directory that comes first in the order of a dictionary.
    First { args: Option<ArgumentList> },
}

/// The same selector under its other name.
pub type TransformativeFunction = FolderFunction;

/// A [`FolderFunction`] with its arguments as sequences of characters.
pub enum FolderFunctionView {
    Last { args: Option<Seq<Seq<char>>> },
    First { args: Option<Seq<Seq<char>>> },
}

impl View for FolderFunction {
    type V = FolderFunctionView;

    open spec fn view(&self) -> FolderFunctionView {
        match *self {
            FolderFunction::Last { args } => FolderFunctionView::Last { args: args.deep_view() },
            FolderFunction::First { args } => FolderFunctionView::First { args: args.deep_view() },
        }
    }
}

impl DeepView for FolderFunction {
    type V = FolderFunctionView;

    open spec fn deep_view(&self) -> FolderFunctionView {
        self@
    }
}

impl Clone for FolderFunction {
    fn clone(&self) -> (r: Self)
        ensures
            r@ == self@,
    {
        match self {
            FolderFunction::Last { args } => FolderFunction::Last {
                args: clone_optional_texts(args),
            },
            FolderFunction::First { args } => FolderFunction::First {
                args: clone_optional_texts(args),
            },
        }
    }
}

/// The arguments of a selector.
pub open spec fn args_of(f: FolderFunctionView) -> Option<Seq<Seq<char>>> {
    match f {
        FolderFunctionView::Last { args } => args,
        FolderFunctionView::First { args } => args,
    }
}

/// The glob of a selector under `root`: the root, the arguments as path
/// segments, and `*`.
pub open spec fn glob_of(f: FolderFunctionView, root: Seq<char>) -> Seq<char> {
    let under = match args_of(f) {
        Some(args) => joined_all(root, args),
        None => root,
    };
    joined(under, seq!['*'])
}

/// `x` is among `candidates` and comes first of them in the order of a dictionary.
pub open spec fn is_least(candidates: Seq<Seq<char>>, x: Seq<char>) -> bool {
    &&& candidates.contains(x)
    &&& forall|i: int| 0 <= i < candidates.len() ==> lex_le(x, candidates[i])
}

/// `x` is among `candidates` and comes last of them in the order of a dictionary.
pub open spec fn is_greatest(candidates: Seq<Seq<char>>, x: Seq<char>) -> bool {
    &&& candidates.contains(x)
    &&& forall|i: int| 0 <= i < candidates.len() ==> lex_le(candidates[i], x)
}

/// `x` is what the selector `f` picks among `candidates`.
pub open spec fn is_selected(f: FolderFunctionView, candidates: Seq<Seq<char>>, x: Seq<char>) -> bool {
    match f {
        FolderFunctionView::First { .. } => is_least(candidates, x),
        FolderFunctionView::Last { .. } => is_greatest(candidates, x),
    }
}

/// A selector picks one directory at most: two picks among the same
/// candidates are the same text.
pub proof fn lemma_selection_unique(
    f: FolderFunctionView,
    candidates: Seq<Seq<char>>,
    x: Seq<char>,
    y: Seq<char>,
)
    requires
        is_selected(f, candidates, x),
        is_selected(f, candidates, y),
    ensures
        x == y,
{
    let i = choose|i: int| 0 <= i < candidates.len() && candidates[i] == x;
    let j = choose|j: int| 0 <= j < candidates.len() && candidates[j] == y;
    assert(candidates[i] == x && candidates[j] == y);
    crate::text::lemma_lex_le_antisym(x, y);
}

/// `e` is an error of selecting a directory with the glob `pattern`: the glob
/// was refused, a path that matches it could not be read, or nothing matches.
pub open spec fn is_selection_failure(e: ErrorView, pattern: Seq<char>) -> bool {
    ||| e is GlobPattern && e->GlobPattern_pattern == pattern
    ||| e is Generic
    ||| e == (ErrorView::DirectoryNotFound { path: pattern })
}

/// What a glob brought, as the `glob` crate reports it: the paths that match
/// `pattern`, each as text, or for each path that could not be read the text
/// of the crate's error; or, where `glob::glob` refuses the pattern, the text
/// of that error. The paths depend on what is on disk, so nothing is said of
/// them.
#[verifier::external_body]
fn glob_entries(pattern: &str) -> (r: Result<Vec<Result<String, String>>, String>) {
    match glob::glob(pattern) {
        Ok(paths) => Ok(
            paths.map(
                |entry|
                    match entry {
                        Ok(path) => Ok(path.to_string_lossy().into_owned()),
                        Err(e) => Err(e.to_string()),
                    },
            ).collect(),
        ),
        Err(e) => Err(e.to_string()),
    }
}

/// The paths among the entries of a glob, or the error of the first entry
/// that could not be read.
pub fn collect_entries(pattern: &str, entries: Vec<Result<String, String>>) -> (r: Result<
    Vec<String>,
    Error,
>)
    ensures
        match r {
            Ok(paths) => paths.len() == entries.len() && forall|i: int|
                0 <= i < entries.len() ==> entries[i] is Ok && entries[i]->Ok_0@ == paths[i]@,
            Err(e) => exists|i: int|
                0 <= i < entries.len() && entries[i] is Err && (forall|k: int|
                    0 <= k < i ==> entries[k] is Ok) && e@ == (ErrorView::Generic {
                    message: "Failed to access "@ + pattern@ + ": "@ + entries[i]->Err_0@,
                }),
        },
{
    let mut paths: Vec<String> = Vec::new();
    let mut i: usize = 0;
    while i < entries.len()
        invariant
            i <= entries.len(),
            paths.len() == i,
            forall|k: int| 0 <= k < i ==> entries[k] is Ok && entries[k]->Ok_0@ == paths[k]@,
        decreases entries.len() - i,
    {
        match &entries[i] {
            Ok(path) => {
                paths.push(path.clone());
            },
            Err(detail) => {
                let message = String::from_str("Failed to access ").concat(pattern).concat(
                    ": ",
                ).concat(detail.as_str());
                return Err(Error::Generic { message });
            },
        }
        i += 1;
    }
    Ok(paths)
}

/// An entry of a glob in the terms of the contracts: the text of a path, or
/// the text of the error that kept a path from being read.
pub open spec fn entry_view(entry: Result<String, String>) -> Result<Seq<char>, Seq<char>> {
    match entry {
        Ok(path) => Ok(path@),
        Err(detail) => Err(detail@),
    }
}

/// What a glob brought in the terms of the contracts: its entries in their
/// order, or the text of the error of a glob that was refused.
pub open spec fn brought_view(brought: Result<Vec<Result<String, String>>, String>) -> Result<
    Seq<Result<Seq<char>, Seq<char>>>,
    Seq<char>,
> {
    match brought {
        Ok(entries) => Ok(entries@.map_values(|e: Result<String, String>| entry_view(e))),
        Err(detail) => Err(detail@),
    }
}

/// Every entry is a path.
pub open spec fn all_readable(entries: Seq<Result<Seq<char>, Seq<char>>>) -> bool {
    forall|k: int| 0 <= k < entries.len() ==> (#[trigger] entries[k]) is Ok
}

/// The entry at `i` is the first that is no path.
pub open spec fn is_first_unreadable(entries: Seq<Result<Seq<char>, Seq<char>>>, i: int) -> bool {
    &&& 0 <= i < entries.len()
    &&& entries[i] is Err
    &&& forall|k: int| 0 <= k < i ==> (#[trigger] entries[k]) is Ok
}

/// The paths of entries that are all paths.
pub open spec fn paths_of(entries: Seq<Result<Seq<char>, Seq<char>>>) -> Seq<Seq<char>> {
    entries.map_values(|e: Result<Seq<char>, Seq<char>>| e->Ok_0)
}

/// Whether `r` is what the selector `f` makes of what the glob `pattern`
/// brought: the error of a glob that was refused, with its pattern; the
/// error of the first path that could not be read; the error of a glob that
/// nothing matches; or the path that comes first, or last, among those that
/// match.
pub open spec fn is_selection_from(
    r: Result<String, Error>,
    f: FolderFunctionView,
    pattern: Seq<char>,
    brought: Result<Seq<Result<Seq<char>, Seq<char>>>, Seq<char>>,
) -> bool {
    match brought {
        Err(detail) => r is Err && r->Err_0@ == (ErrorView::GlobPattern { detail, pattern }),
        Ok(entries) => if !all_readable(entries) {
            exists|i: int| #[trigger]
                is_first_unreadable(entries, i) && r is Err && r->Err_0@ == (ErrorView::Generic {
                    message: "Failed to access "@ + pattern + ": "@ + entries[i]->Err_0,
                })
        } else if entries.len() == 0 {
            r is Err && r->Err_0@ == (ErrorView::DirectoryNotFound { path: pattern })
        } else {
            r is Ok && is_selected(f, paths_of(entries), r->Ok_0@)
        },
    }
}

/// `dir` is what the selector `f` picks among the paths that some glob
/// brought: at least one path, and none that could not be read.
pub open spec fn is_pick(f: FolderFunctionView, dir: Seq<char>) -> bool {
    exists|entries: Seq<Result<Seq<char>, Seq<char>>>|
        all_readable(entries) && entries.len() > 0 && #[trigger] is_selected(
            f,
            paths_of(entries),
            dir,
        )
}

/// A directory that was selected from what a glob brought is a pick of the
/// selector.
pub proof fn lemma_selection_is_pick(
    r: Result<String, Error>,
    f: FolderFunctionView,
    pattern: Seq<char>,
    brought: Result<Seq<Result<Seq<char>, Seq<char>>>, Seq<char>>,
)
    requires
        is_selection_from(r, f, pattern, brought),
        r is Ok,
    ensures
        is_pick(f, r->Ok_0@),
{
    let entries = brought->Ok_0;
    assert(all_readable(entries) && entries.len() > 0 && is_selected(
        f,
        paths_of(entries),
        r->Ok_0@,
    ));
}

/// Whatever a glob brought, an error of selecting from it is one of the
/// three that [`is_selection_failure`] names.
pub proof fn lemma_selection_fails_in_kind(
    r: Result<String, Error>,
    f: FolderFunctionView,
    pattern: Seq<char>,
    brought: Result<Seq<Result<Seq<char>, Seq<char>>>, Seq<char>>,
)
    requires
        is_selection_from(r, f, pattern, brought),
    ensures
        r matches Err(e) ==> is_selection_failure(e@, pattern),
{
}

impl FolderFunction {
    /// Whether two selectors are the same.
    pub fn same_as(&self, other: &FolderFunction) -> (r: bool)
        ensures
            r == (self@ == other@),
    {
        match (self, other) {
            (FolderFunction::Last { args: a }, FolderFunction::Last { args: b }) => {
                same_optional_texts(a, b)
            },
            (FolderFunction::First { args: a }, FolderFunction::First { args: b }) => {
                same_optional_texts(a, b)
            },
            _ => false,
        }
    }

    /// The glob of this selector under `root`.
    pub fn construct_path(&self, root: &str) -> (r: String)
        ensures
            r@ == glob_of(self@, root@),
    {
        let args = match self {
            FolderFunction::Last { args } => args,
            FolderFunction::First { args } => args,
        };
        let under = match args {
            Some(list) => join_all(root, list),
            None => String::from_str(root),
        };
        let r = full_path(under.as_str(), "*");
        proof {
            reveal_strlit("*");
            assert("*"@ =~= seq!['*']);
        }
        r
    }

    /// Picks among `results` the path that comes first, or last, in the order
    /// of a dictionary, whatever the order in which they are given. There is
    /// nothing to pick from an empty list.
    pub fn get_result_based_on_transformation(&self, results: Vec<String>) -> (r: Result<
        String,
        Error,
    >)
        ensures
            results.len() == 0 ==> r is Err && r->Err_0@ == (ErrorView::Generic {
                message: "No directory to select from"@,
            }),
            results.len() > 0 ==> r is Ok && is_selected(self@, results.deep_view(), r->Ok_0@),
    {
        if results.len() == 0 {
            return Err(crate::errors::generic_error("No directory to select from"));
        }
        let first = match self {
            FolderFunction::First { .. } => true,
            FolderFunction::Last { .. } => false,
        };
        let mut best: usize = 0;
        let mut best_chars = chars_of(results[0].as_str());
        let mut i: usize = 1;
        proof {
            lemma_lex_le_refl(best_chars@);
        }
        while i < results.len()
            invariant
                1 <= i <= results.len(),
                best < i,
                best_chars@ == results[best as int]@,
                first == (self@ is First),
                forall|k: int|
                    0 <= k < i ==> if first {
                        lex_le(best_chars@, #[trigger] results[k]@)
                    } else {
                        lex_le(results[k]@, best_chars@)
                    },
            decreases results.len() - i,
        {
            let current = chars_of(results[i].as_str());
            let better = if first {
                !lex_le_chars(&best_chars, &current)
            } else {
                !lex_le_chars(&current, &best_chars)
            };
            proof {
                lemma_lex_le_total(best_chars@, current@);
                lemma_lex_le_refl(current@);
                if better {
                    assert forall|k: int| 0 <= k < i implies if first {
                        lex_le(current@, #[trigger] results[k]@)
                    } else {
                        lex_le(results[k]@, current@)
                    } by {
                        if first {
                            lemma_lex_le_trans(current@, best_chars@, results[k]@);
                        } else {
                            lemma_lex_le_trans(results[k]@, best_chars@, current@);
                        }
                    }
                }
            }
            if better {
                best = i;
                best_chars = current;
            }
            i += 1;
        }
        let chosen = results[best].clone();
        proof {
            let all = results.deep_view();
            assert(all[best as int] == chosen@);
            assert(all.contains(chosen@));
            assert forall|k: int| 0 <= k < all.len() implies if first {
                lex_le(chosen@, all[k])
            } else {
                lex_le(all[k], chosen@)
            } by {
                assert(all[k] == results[k]@);
            }
        }
        Ok(chosen)
    }

    /// Picks the directory among the paths that the glob `pattern` brought:
    /// none of them is an error of its own.
    pub fn select_directory(&self, pattern: &str, candidates: Vec<String>) -> (r: Result<
        String,
        Error,
    >)
        ensures
            candidates.len() == 0 ==> r is Err && r->Err_0@ == (ErrorView::DirectoryNotFound {
                path: pattern@,
            }),
            candidates.len() > 0 ==> r is Ok && is_selected(
                self@,
                candidates.deep_view(),
                r->Ok_0@,
            ),
    {
        if candidates.len() == 0 {
            return Err(Error::DirectoryNotFound { path: String::from_str(pattern) });
        }
        self.get_result_based_on_transformation(candidates)
    }

    /// Picks the directory from what a glob brought for `pattern`. A glob
    /// that was refused is an error that names the glob; the first path that
    /// could not be read is an error that says so; where nothing matched, no
    /// directory was found; and else the directory is the path that comes
    /// first, or last, in the order of a dictionary.
    pub fn select_from(
        &self,
        pattern: &str,
        brought: Result<Vec<Result<String, String>>, String>,
    ) -> (r: Result<String, Error>)
        ensures
            is_selection_from(r, self@, pattern@, brought_view(brought)),
    {
        let entries = match brought {
            Ok(entries) => entries,
            Err(detail) => {
                return Err(Error::GlobPattern { detail, pattern: String::from_str(pattern) });
            },
        };
        let ghost seen = entries@.map_values(|e: Result<String, String>| entry_view(e));
        let candidates = match collect_entries(pattern, entries) {
            Ok(candidates) => candidates,
            Err(e) => {
                proof {
                    let i = choose|i: int|
                        0 <= i < entries.len() && entries[i] is Err && (forall|k: int|
                            0 <= k < i ==> entries[k] is Ok) && e@ == (ErrorView::Generic {
                            message: "Failed to access "@ + pattern@ + ": "@ + entries[i]->Err_0@,
                        });
                    assert(seen[i] is Err);
                    assert(is_first_unreadable(seen, i));
                }
                return Err(e);
            },
        };
        proof {
            assert(all_readable(seen));
            assert(paths_of(seen) =~= candidates.deep_view());
        }
        self.select_directory(pattern, candidates)
    }

    /// The directory that this selector picks under `root`, among those on
    /// disk now: what [`FolderFunction::select_from`] makes of what the glob
    /// of this selector under `root` brings. What the glob brings depends on
    /// what is on disk, so the result is stated for whatever it brought.
    pub fn get_dir(&self, root: &str) -> (r: Result<String, Error>)
        ensures
            exists|brought: Result<Seq<Result<Seq<char>, Seq<char>>>, Seq<char>>| #[trigger]
                is_selection_from(r, self@, glob_of(self@, root@), brought),
            r matches Err(e) ==> is_selection_failure(e@, glob_of(self@, root@)),
            r matches Ok(dir) ==> is_pick(self@, dir@),
    {
        let pattern = self.construct_path(root);
        let brought = glob_entries(pattern.as_str());
        let ghost seen = brought_view(brought);
        let r = self.select_from(pattern.as_str(), brought);
        proof {
            assert(is_selection_from(r, self@, glob_of(self@, root@), seen));
            lemma_selection_fails_in_kind(r, self@, glob_of(self@, root@), seen);
            if r is Ok {
                lemma_selection_is_pick(r, self@, glob_of(self@, root@), seen);
            }
        }
        r
    }
}

/// The directory that was found for a file, with the rule that found it.
#[derive(Debug)]
pub struct TransformResult {
    /// The path of the file.
    pub source_path: String,
    /// The directory the file goes to.
    pub target_dir: String,
    /// The rule that applies.
    pub rule: Rule,
}

/// The directory that a rule without a selector names under `root`: its
/// `directory`, with a `<start:length>` marker replaced by that part of the
/// file name, or else its title.
pub open spec fn named_directory(rule: RuleView, root: Seq<char>, source: Seq<char>) -> Result<
    Seq<char>,
    ErrorView,
> {
    match rule.directory {
        Some(dir) => marker_resolved(joined(root, dir), source),
        None => Ok(joined(root, rule.title)),
    }
}

/// Finds the directory for the file at `source_path` under the rule `rule`:
/// what the rule's selector picks under the rule's root, or else the rule's
/// directory under that root, or else a directory under that root with the
/// rule's title for its name.
pub fn apply_transformative_function(source_path: &str, root_paths: &Vec<String>, rule: &Rule) -> (r:
    Result<TransformResult, Error>)
    ensures
        rule.root >= root_paths.len() ==> r is Err && r->Err_0@ == (ErrorView::Generic {
            message: "Root index out of bounds"@,
        }),
        r matches Ok(found) ==> found.source_path@ == source_path@ && found.rule@ == rule@,
        rule.root < root_paths.len() && rule.function is None ==> match named_directory(
            rule@,
            root_paths[rule.root as int]@,
            source_path@,
        ) {
            Ok(dir) => r is Ok && r->Ok_0.target_dir@ == dir,
            Err(e) => r is Err && r->Err_0@ == e,
        },
        rule.root < root_paths.len() && rule.function is Some ==> (r matches Err(e)
            ==> is_selection_failure(
            e@,
            glob_of(rule.function->Some_0@, root_paths[rule.root as int]@),
        )),
        rule.root < root_paths.len() && rule.function is Some ==> (r matches Ok(found) ==> is_pick(
            rule.function->Some_0@,
            found.target_dir@,
        )),
{
    if rule.root >= root_paths.len() {
        return Err(crate::errors::generic_error("Root index out of bounds"));
    }
    let root_path = &root_paths[rule.root];
    let target_dir = if let Some(function) = &rule.function {
        match function.get_dir(root_path.as_str()) {
            Ok(dir) => dir,
            Err(e) => {
                return Err(e);
            },
        }
    } else if let Some(dir) = &rule.directory {
        let under_root = full_path(root_path.as_str(), dir.as_str());
        match resolve_directory(under_root.as_str(), source_path) {
            Ok(dir) => dir,
            Err(e) => {
                return Err(e);
            },
        }
    } else {
        full_path(root_path.as_str(), rule.title.as_str())
    };
    Ok(TransformResult { source_path: String::from_str(source_path), target_dir, rule: rule.clone() })
}

} // verus!
