//! The configuration: roots, the directory to scan, and the rules.
//!
//! A configuration may name a parent. The child is laid over the parent: it
//! keeps its own roots unless it has none, and its rules come before the
//! parent's. A configuration is used only once it is valid: it has a root and
//! a rule, and every rule has a title, a pattern and a root that exists.
//! Parents may have parents: the oldest ancestor is taken first and each
//! descendant is laid over what came before, every step being valid. A
//! parent that leads back to a configuration already loaded is an error.

use vstd::prelude::*;
use vstd::string::*;
use crate::errors::{Error, ErrorView};
use crate::matcher::{scan_directory, scanned, DirectoryEntry, DirectoryEntryView, FileInfoView};
use crate::numbers::{decimal_text, push_decimal};
use crate::paths::{full_path, joined, parent, parent_of};
use crate::rules::{append_rules, clone_text, clone_texts, Rule, RuleView, RulesList};
use crate::text::{
    append_chars, blank, chars_of, contains_sub, is_blank, occurs_at, same_chars, string_of,
};

verus! {

/// A configuration.
#[derive(Debug)]
pub struct Config {
    /// The directories under which files are put.
    pub root: Vec<String>,
    /// The directory whose files are sorted.
    pub download: String,
    /// The rules, in the order in which they are tried.
    pub rules: RulesList,
    /// The files found in the directory to scan.
    pub files: Vec<String>,
    /// The path of the parent configuration, if there is one.
    pub parent: Option<String>,
}

/// A [`Config`] with its texts as sequences of characters.
pub struct ConfigView {
    pub root: Seq<Seq<char>>,
    pub download: Seq<char>,
    pub rules: Seq<RuleView>,
    pub files: Seq<Seq<char>>,
    pub parent: Option<Seq<char>>,
}

/// What is at a path.
#[derive(Debug, Clone, Copy, PartialEq, Eq, Structural)]
pub enum PathKind {
    /// Nothing.
    Missing,
    /// Something that is no directory.
    File,
    /// A directory.
    Directory,
}

/// What was found at the paths of a configuration.
#[derive(Debug)]
pub struct PathChecks {
    /// What is at each root, in the order of the roots.
    pub roots: Vec<PathKind>,
    /// What is at the directory to scan.
    pub download: PathKind,
}

impl View for Config {
    type V = ConfigView;

    open spec fn view(&self) -> ConfigView {
        ConfigView {
            root: self.root.deep_view(),
            download: self.download@,
            rules: self.rules.deep_view(),
            files: self.files.deep_view(),
            parent: self.parent.deep_view(),
        }
    }
}

impl Clone for Config {
    fn clone(&self) -> (r: Self)
        ensures
            r@ == self@,
    {
        let mut rules: RulesList = Vec::new();
        let mut i: usize = 0;
        while i < self.rules.len()
            invariant
                i <= self.rules.len(),
                rules.len() == i,
                forall|k: int| 0 <= k < i ==> rules[k]@ == self.rules[k]@,
            decreases self.rules.len() - i,
        {
            rules.push(self.rules[i].clone());
            i += 1;
        }
        assert(rules.deep_view() =~= self.rules.deep_view());
        Config {
            root: clone_texts(&self.root),
            download: self.download.clone(),
            rules,
            files: clone_texts(&self.files),
            parent: clone_text(&self.parent),
        }
    }
}

/// The paths of the files to sort among the entries of a directory, in
/// their order.
pub open spec fn listed_paths(entries: Seq<DirectoryEntryView>) -> Seq<Seq<char>> {
    scanned(entries).map_values(|file: FileInfoView| file.path)
}

/// The child configuration laid over its parent.
pub open spec fn merged(parent: ConfigView, child: ConfigView) -> ConfigView {
    ConfigView {
        root: if child.root.len() == 0 {
            parent.root
        } else {
            child.root
        },
        rules: if child.rules.len() == 0 {
            parent.rules
        } else {
            child.rules + parent.rules
        },
        ..child
    }
}

/// The path of the parent that the configuration at `file` names as
/// `parent`: the name itself where it starts at the root or holds a colon,
/// and else the name beside the configuration.
pub open spec fn parent_path(file: Seq<char>, parent: Seq<char>) -> Seq<char> {
    if (parent.len() > 0 && parent[0] == '/') || parent.contains(':') {
        parent
    } else {
        joined(parent_of(file), parent)
    }
}

/// What is wrong with the root at position `index`, if anything.
pub open spec fn root_failure(path: Seq<char>, index: int, kind: PathKind) -> Option<Seq<char>> {
    match kind {
        PathKind::Missing => Some(
            "Root directory "@ + path + " at index "@ + decimal_text(index as nat)
                + " does not exist: Please check the path and ensure it exists."@,
        ),
        PathKind::File => Some(
            "Root path "@ + path + " at index "@ + decimal_text(index as nat)
                + " is not a directory: Please specify a valid directory path."@,
        ),
        PathKind::Directory => None,
    }
}

/// What was found at the root at position `index`; a root that was not
/// looked at counts as missing.
pub open spec fn kind_at(kinds: Seq<PathKind>, index: int) -> PathKind {
    if 0 <= index < kinds.len() {
        kinds[index]
    } else {
        PathKind::Missing
    }
}

/// What is wrong with the first root from position `from` on that has
/// something wrong.
pub open spec fn roots_failure(roots: Seq<Seq<char>>, kinds: Seq<PathKind>, from: int) -> Option<
    Seq<char>,
>
    decreases roots.len() - from,
{
    if from < 0 || from >= roots.len() {
        None
    } else {
        match root_failure(roots[from], from, kind_at(kinds, from)) {
            Some(f) => Some(f),
            None => roots_failure(roots, kinds, from + 1),
        }
    }
}

/// What is wrong with the directory to scan, if anything.
pub open spec fn download_failure(path: Seq<char>, kind: PathKind) -> Option<Seq<char>> {
    match kind {
        PathKind::Missing => Some(
            "Download directory does not exist: "@ + path
                + "\nPlease check the path and ensure it exists."@,
        ),
        PathKind::File => Some(
            "Download path is not a directory: "@ + path
                + "\nPlease specify a valid directory path."@,
        ),
        PathKind::Directory => None,
    }
}

/// What is wrong with the rule at position `index`, if anything: its title
/// is blank, it has neither a pattern nor patterns, or its root is none of
/// the `roots` many that there are.
pub open spec fn rule_failure(rule: RuleView, index: int, roots: int) -> Option<Seq<char>> {
    if is_blank(rule.title) {
        Some(
            "Rule at index "@ + decimal_text(index as nat)
                + " has an empty title. Each rule must have a title."@,
        )
    } else if rule.pattern is None && rule.patterns is None {
        Some(
            "Rule '"@ + rule.title
                + "' has no pattern or patterns specified. Each rule must have at least one pattern."@,
        )
    } else if rule.root >= roots {
        Some(
            "Rule '"@ + rule.title + "' references root index "@ + decimal_text(rule.root as nat)
                + " which is out of bounds (max index: "@ + decimal_text(
                if roots > 0 {
                    (roots - 1) as nat
                } else {
                    0
                },
            ) + ")."@,
        )
    } else {
        None
    }
}

/// What is wrong with the first rule from position `from` on that has
/// something wrong.
pub open spec fn rules_failure(rules: Seq<RuleView>, roots: int, from: int) -> Option<Seq<char>>
    decreases rules.len() - from,
{
    if from < 0 || from >= rules.len() {
        None
    } else {
        match rule_failure(rules[from], from, roots) {
            Some(f) => Some(f),
            None => rules_failure(rules, roots, from + 1),
        }
    }
}

/// What is wrong with a configuration, if anything: the first of what the
/// checks find, in this order: no roots; where paths were looked at, a root
/// or the directory to scan that is no directory; no rules; a rule that is
/// not well formed.
pub open spec fn validation_failure(
    config: ConfigView,
    checks: Option<(Seq<PathKind>, PathKind)>,
) -> Option<Seq<char>> {
    if config.root.len() == 0 {
        Some(
            "No root directories specified in configuration. At least one root directory is required."@,
        )
    } else {
        let paths = match checks {
            Some((kinds, download)) => match roots_failure(config.root, kinds, 0) {
                Some(f) => Some(f),
                None => download_failure(config.download, download),
            },
            None => None,
        };
        if paths is Some {
            paths
        } else if config.rules.len() == 0 {
            Some("No rules specified in configuration. At least one rule is required."@)
        } else {
            rules_failure(config.rules, config.root.len() as int, 0)
        }
    }
}

/// A configuration is valid: it has a root and a rule, and every rule has a
/// title, a pattern and a root among the configured ones.
pub open spec fn is_valid(config: ConfigView) -> bool {
    validation_failure(config, None) is None
}

/// What was found at the paths, as the validity of a configuration takes it.
pub open spec fn checks_view(checks: Option<&PathChecks>) -> Option<(Seq<PathKind>, PathKind)> {
    match checks {
        Some(c) => Some((c.roots@, c.download)),
        None => None,
    }
}

/// In a valid configuration there is a root, there is a rule, and every rule
/// names a root that exists.
pub proof fn lemma_valid_roots(config: ConfigView)
    requires
        is_valid(config),
    ensures
        config.root.len() > 0,
        config.rules.len() > 0,
        forall|i: int| 0 <= i < config.rules.len() ==> config.rules[i].root < config.root.len(),
{
    assert forall|i: int| 0 <= i < config.rules.len() implies config.rules[i].root
        < config.root.len() by {
        lemma_rules_failure_none(config.rules, config.root.len() as int, 0, i);
    }
}

/// Where no rule from `from` on has anything wrong, the rule at `i` has not.
pub proof fn lemma_rules_failure_none(rules: Seq<RuleView>, roots: int, from: int, i: int)
    requires
        0 <= from <= i < rules.len(),
        rules_failure(rules, roots, from) is None,
    ensures
        rule_failure(rules[i], i, roots) is None,
    decreases i - from,
{
    if from < i {
        lemma_rules_failure_none(rules, roots, from + 1, i);
    }
}

/// A configuration without roots is refused, whatever else it holds, and the
/// refusal speaks of the root.
pub proof fn lemma_no_roots_refused(config: ConfigView, checks: Option<(Seq<PathKind>, PathKind)>)
    requires
        config.root.len() == 0,
    ensures
        validation_failure(config, checks) is Some,
        contains_sub(validation_failure(config, checks)->Some_0, "root"@),
{
    let said = validation_failure(config, checks)->Some_0;
    reveal_strlit(
        "No root directories specified in configuration. At least one root directory is required.",
    );
    reveal_strlit("root");
    assert(said.subrange(3, 7) =~= "root"@);
    assert(occurs_at(said, "root"@, 3));
}

/// A rule with a title and with neither a pattern nor patterns is refused,
/// and the refusal speaks of the pattern.
pub proof fn lemma_rule_without_pattern_refused(rule: RuleView, index: int, roots: int)
    requires
        !is_blank(rule.title),
        rule.pattern is None,
        rule.patterns is None,
    ensures
        rule_failure(rule, index, roots) is Some,
        contains_sub(rule_failure(rule, index, roots)->Some_0, "pattern"@),
{
    let said = rule_failure(rule, index, roots)->Some_0;
    let at = (6 + rule.title.len() + 9) as int;
    reveal_strlit("Rule '");
    reveal_strlit(
        "' has no pattern or patterns specified. Each rule must have at least one pattern.",
    );
    reveal_strlit("pattern");
    assert(said.subrange(at, at + 7) =~= "pattern"@);
    assert(occurs_at(said, "pattern"@, at));
}

/// A rule with a title and a pattern whose root is none of the configured
/// ones is refused, and the refusal says that the root is out of bounds.
pub proof fn lemma_rule_root_out_of_bounds_refused(rule: RuleView, index: int, roots: int)
    requires
        !is_blank(rule.title),
        rule.pattern is Some || rule.patterns is Some,
        rule.root >= roots,
    ensures
        rule_failure(rule, index, roots) is Some,
        contains_sub(rule_failure(rule, index, roots)->Some_0, "out of bounds"@),
{
    let said = rule_failure(rule, index, roots)->Some_0;
    let number = decimal_text(rule.root as nat);
    let at = (6 + rule.title.len() + 24 + number.len() + 10) as int;
    reveal_strlit("Rule '");
    reveal_strlit("' references root index ");
    reveal_strlit(" which is out of bounds (max index: ");
    reveal_strlit("out of bounds");
    assert(said.subrange(at, at + 13) =~= "out of bounds"@);
    assert(occurs_at(said, "out of bounds"@, at));
}

/// A configuration with a rule that is refused is refused itself.
pub proof fn lemma_refused_rule_refuses_configuration(
    config: ConfigView,
    checks: Option<(Seq<PathKind>, PathKind)>,
    i: int,
)
    requires
        0 <= i < config.rules.len(),
        rule_failure(config.rules[i], i, config.root.len() as int) is Some,
    ensures
        validation_failure(config, checks) is Some,
{
    if config.root.len() > 0 && rules_failure(config.rules, config.root.len() as int, 0) is None {
        lemma_rules_failure_none(config.rules, config.root.len() as int, 0, i);
    }
}

/// The error of a configuration that is not valid.
fn invalid(detail: Vec<char>) -> (e: Error)
    ensures
        e@ == (ErrorView::ConfigValidation { detail: detail@ }),
{
    Error::ConfigValidation { detail: string_of(&detail) }
}

/// What is wrong with the root at position `index`, if anything.
fn check_root(path: &str, index: usize, kind: PathKind) -> (r: Option<Vec<char>>)
    ensures
        match r {
            Some(m) => root_failure(path@, index as int, kind) == Some(m@),
            None => root_failure(path@, index as int, kind) is None,
        },
{
    let (head, tail) = match kind {
        PathKind::Directory => {
            return None;
        },
        PathKind::Missing => (
            "Root directory ",
            " does not exist: Please check the path and ensure it exists.",
        ),
        PathKind::File => (
            "Root path ",
            " is not a directory: Please specify a valid directory path.",
        ),
    };
    let mut m = chars_of(head);
    append_chars(&mut m, &chars_of(path));
    append_chars(&mut m, &chars_of(" at index "));
    push_decimal(index as u128, &mut m);
    append_chars(&mut m, &chars_of(tail));
    Some(m)
}

/// What is wrong with the directory to scan, if anything.
fn check_download(path: &str, kind: PathKind) -> (r: Option<Vec<char>>)
    ensures
        match r {
            Some(m) => download_failure(path@, kind) == Some(m@),
            None => download_failure(path@, kind) is None,
        },
{
    let (head, tail) = match kind {
        PathKind::Directory => {
            return None;
        },
        PathKind::Missing => (
            "Download directory does not exist: ",
            "\nPlease check the path and ensure it exists.",
        ),
        PathKind::File => (
            "Download path is not a directory: ",
            "\nPlease specify a valid directory path.",
        ),
    };
    let mut m = chars_of(head);
    append_chars(&mut m, &chars_of(path));
    append_chars(&mut m, &chars_of(tail));
    Some(m)
}

/// What is wrong with the rule at position `index`, if anything.
fn check_rule(rule: &Rule, index: usize, roots: usize) -> (r: Option<Vec<char>>)
    ensures
        match r {
            Some(m) => rule_failure(rule@, index as int, roots as int) == Some(m@),
            None => rule_failure(rule@, index as int, roots as int) is None,
        },
{
    if blank(rule.title.as_str()) {
        let mut m = chars_of("Rule at index ");
        push_decimal(index as u128, &mut m);
        append_chars(&mut m, &chars_of(" has an empty title. Each rule must have a title."));
            return Some(m);
    }
    if rule.pattern.is_none() && rule.patterns.is_none() {
        let mut m = chars_of("Rule '");
        append_chars(&mut m, &chars_of(rule.title.as_str()));
        append_chars(
            &mut m,
            &chars_of(
                "' has no pattern or patterns specified. Each rule must have at least one pattern.",
            ),
        );
            return Some(m);
    }
    if rule.root >= roots {
        let mut m = chars_of("Rule '");
        append_chars(&mut m, &chars_of(rule.title.as_str()));
        append_chars(&mut m, &chars_of("' references root index "));
        push_decimal(rule.root as u128, &mut m);
        append_chars(&mut m, &chars_of(" which is out of bounds (max index: "));
        let last: u128 = if roots == 0 {
            0
        } else {
            (roots - 1) as u128
        };
        push_decimal(last, &mut m);
        append_chars(&mut m, &chars_of(")."));
            return Some(m);
    }
    None
}

impl Config {
    /// Takes the files to sort from the entries of the directory to scan:
    /// the regular files that are not hidden, in the order of the entries.
    pub fn get_files(&mut self, entries: &Vec<DirectoryEntry>)
        ensures
            final(self)@ == (ConfigView { files: listed_paths(entries.deep_view()), ..old(self)@ }),
    {
        let found = scan_directory(entries);
        let mut files: Vec<String> = Vec::new();
        let mut i: usize = 0;
        while i < found.len()
            invariant
                i <= found.len(),
                files.len() == i,
                forall|k: int| 0 <= k < i ==> files[k]@ == found[k]@.path,
            decreases found.len() - i,
        {
            files.push(found[i].path.clone());
            i += 1;
        }
        assert(files.deep_view() =~= listed_paths(entries.deep_view()));
        self.files = files;
    }

    /// Validates the configuration. Where `checks` says what was found at
    /// the paths of the configuration, each root and the directory to scan
    /// must be a directory. The error is the first thing that is wrong.
    pub fn validate(&self, checks: Option<&PathChecks>) -> (r: Result<(), Error>)
        ensures
            match validation_failure(self@, checks_view(checks)) {
                Some(detail) => r is Err && r->Err_0@ == (ErrorView::ConfigValidation { detail }),
                None => r is Ok,
            },
    {
        if self.root.len() == 0 {
            return Err(
                invalid(
                    chars_of(
                        "No root directories specified in configuration. At least one root directory is required.",
                    ),
                ),
            );
        }
        if let Some(found) = checks {
            let mut i: usize = 0;
            while i < self.root.len()
                invariant
                    i <= self.root.len(),
                    self@.root.len() == self.root.len(),
                    checks_view(checks) == Some((found.roots@, found.download)),
                    roots_failure(self@.root, found.roots@, 0) == roots_failure(
                        self@.root,
                        found.roots@,
                        i as int,
                    ),
                decreases self.root.len() - i,
            {
                let kind = if i < found.roots.len() {
                    found.roots[i]
                } else {
                    PathKind::Missing
                };
                proof {
                    assert(self@.root[i as int] == self.root[i as int]@);
                }
                match check_root(self.root[i].as_str(), i, kind) {
                    Some(detail) => {
                        return Err(invalid(detail));
                    },
                    None => {},
                }
                i += 1;
            }
            match check_download(self.download.as_str(), found.download) {
                Some(detail) => {
                    return Err(invalid(detail));
                },
                None => {},
            }
        }
        if self.rules.len() == 0 {
            return Err(
                invalid(
                    chars_of("No rules specified in configuration. At least one rule is required."),
                ),
            );
        }
        let mut j: usize = 0;
        assert(validation_failure(self@, checks_view(checks)) == rules_failure(
            self@.rules,
            self.root.len() as int,
            0,
        ));
        while j < self.rules.len()
            invariant
                j <= self.rules.len(),
                self@.rules.len() == self.rules.len(),
                validation_failure(self@, checks_view(checks)) == rules_failure(
                    self@.rules,
                    self.root.len() as int,
                    j as int,
                ),
            decreases self.rules.len() - j,
        {
            proof {
                assert(self@.rules[j as int] == self.rules[j as int]@);
            }
            match check_rule(&self.rules[j], j, self.root.len()) {
                Some(detail) => {
                    return Err(invalid(detail));
                },
                None => {},
            }
            j += 1;
        }
        Ok(())
    }
}

/// Lays the child configuration over its parent: the child keeps its roots
/// unless it has none, its rules come before the parent's, and everything
/// else is the child's.
pub fn merge_configs(parent: Config, child: Config) -> (r: Config)
    ensures
        r@ == merged(parent@, child@),
{
    let mut parent = parent;
    let mut child = child;
    if child.root.len() == 0 {
        child.root = parent.root;
    }
    if child.rules.len() == 0 {
        child.rules = parent.rules;
    } else {
        let mut rules = child.rules;
        append_rules(&mut rules, &mut parent.rules);
        child.rules = rules;
    }
    child
}

/// The path of the parent that the configuration at `file` names as `parent`.
pub fn resolve_parent_path(file: &str, parent_name: &str) -> (r: String)
    ensures
        r@ == parent_path(file@, parent_name@),
{
    let name = chars_of(parent_name);
    let rooted = name.len() > 0 && name[0] == '/';
    if rooted || crate::dates::has_char(&name, ':') {
        String::from_str(parent_name)
    } else {
        let dir = parent(file);
        full_path(dir.as_str(), parent_name)
    }
}

/// Whether `path` is among `visited`.
pub fn was_visited(visited: &Vec<String>, path: &str) -> (r: bool)
    ensures
        r == visited.deep_view().contains(path@),
{
    let wanted = chars_of(path);
    let mut i: usize = 0;
    while i < visited.len()
        invariant
            i <= visited.len(),
            wanted@ == path@,
            forall|k: int| 0 <= k < i ==> visited.deep_view()[k] != path@,
        decreases visited.len() - i,
    {
        proof {
            assert(visited.deep_view()[i as int] == visited[i as int]@);
        }
        if same_chars(&chars_of(visited[i].as_str()), &wanted) {
            return true;
        }
        i += 1;
    }
    false
}

/// The next configuration to load on the way up from the configuration at
/// `file`: the path of the parent that it names, if it names one. It is an
/// error for that path to be among `visited`, the paths already loaded: the
/// parents would go round in a circle.
pub fn next_parent(visited: &Vec<String>, file: &str, config: &Config) -> (r: Result<
    Option<String>,
    Error,
>)
    ensures
        match config@.parent {
            None => r is Ok && r->Ok_0 is None,
            Some(name) => if visited.deep_view().contains(parent_path(file@, name)) {
                r is Err && r->Err_0@ == (ErrorView::ConfigValidation {
                    detail: "Cycle detected in parent configurations at "@ + parent_path(
                        file@,
                        name,
                    ),
                })
            } else {
                r is Ok && r->Ok_0.deep_view() == Some(parent_path(file@, name))
            },
        },
{
    let name = match &config.parent {
        Some(name) => name,
        None => {
            return Ok(None);
        },
    };
    let path = resolve_parent_path(file, name.as_str());
    if was_visited(visited, path.as_str()) {
        let detail = String::from_str("Cycle detected in parent configurations at ").concat(
            path.as_str(),
        );
        return Err(Error::ConfigValidation { detail });
    }
    Ok(Some(path))
}

/// The parent of a configuration, which must be there: it is an error for
/// the configuration at `child` to name a parent at `parent` where no file
/// is.
pub fn found_parent(parent: String, child: &str, exists: bool) -> (r: Result<String, Error>)
    ensures
        exists ==> r is Ok && r->Ok_0@ == parent@,
        !exists ==> r is Err && r->Err_0@ == (ErrorView::ParentNotFound {
            parent: parent@,
            child: child@,
        }),
{
    if exists {
        Ok(parent)
    } else {
        Err(Error::ParentNotFound { parent, child: String::from_str(child) })
    }
}

/// A configuration as it was read from its file, with what was found at its
/// paths.
#[derive(Debug)]
pub struct LoadedConfig {
    /// The configuration.
    pub config: Config,
    /// What is at its roots and at its directory to scan.
    pub found: PathChecks,
}

/// A [`LoadedConfig`] with its texts as sequences of characters.
pub struct LoadedView {
    pub config: ConfigView,
    pub roots: Seq<PathKind>,
    pub download: PathKind,
}

impl View for LoadedConfig {
    type V = LoadedView;

    open spec fn view(&self) -> LoadedView {
        LoadedView { config: self.config@, roots: self.found.roots@, download: self.found.download }
    }
}

impl DeepView for LoadedConfig {
    type V = LoadedView;

    open spec fn deep_view(&self) -> LoadedView {
        self@
    }
}

/// The child laid over its parent, each with what was found at its paths:
/// the roots that the merged configuration keeps bring what was found at
/// them, and the directory to scan is the child's.
pub open spec fn laid_over(parent: LoadedView, child: LoadedView) -> LoadedView {
    LoadedView {
        config: merged(parent.config, child.config),
        roots: if child.config.root.len() == 0 {
            parent.roots
        } else {
            child.roots
        },
        download: child.download,
    }
}

/// What is wrong with a configuration that was read, if anything; what was
/// found at its paths counts only where `check_paths` says so.
pub open spec fn loaded_failure(loaded: LoadedView, check_paths: bool) -> Option<Seq<char>> {
    validation_failure(
        loaded.config,
        if check_paths {
            Some((loaded.roots, loaded.download))
        } else {
            None
        },
    )
}

/// The error of a chain without a configuration.
pub open spec fn empty_chain() -> ErrorView {
    ErrorView::Generic { message: "No configuration to load"@ }
}

/// What the chain from position `k` on comes to, where each configuration
/// is followed by its parent: the oldest ancestor as it stands, and every
/// other configuration laid over what its parents come to. Each of them
/// must be valid, or the chain fails with what is wrong with it.
pub open spec fn chain_from(chain: Seq<LoadedView>, k: int, check_paths: bool) -> Result<
    LoadedView,
    ErrorView,
>
    decreases chain.len() - k,
{
    if k < 0 || k >= chain.len() {
        Err(empty_chain())
    } else {
        let own = if k == chain.len() - 1 {
            Ok(chain[k])
        } else {
            match chain_from(chain, k + 1, check_paths) {
                Ok(parents) => Ok(laid_over(parents, chain[k])),
                Err(e) => Err(e),
            }
        };
        match own {
            Err(e) => Err(e),
            Ok(loaded) => match loaded_failure(loaded, check_paths) {
                Some(detail) => Err(ErrorView::ConfigValidation { detail }),
                None => Ok(loaded),
            },
        }
    }
}

/// Merges a configuration with its parents. `chain` holds the configuration
/// first, then its parent, then the parent of that, up to the oldest
/// ancestor. The oldest ancestor is taken first, and each descendant is laid
/// over what came before. Every configuration on the way must be valid, its
/// paths included where `check_paths` says so; the first that is not fails
/// the whole chain.
pub fn merge_chain(chain: Vec<LoadedConfig>, check_paths: bool) -> (r: Result<Config, Error>)
    ensures
        match chain_from(chain.deep_view(), 0, check_paths) {
            Ok(loaded) => r is Ok && r->Ok_0@ == loaded.config,
            Err(e) => r is Err && r->Err_0@ == e,
        },
{
    let ghost all = chain.deep_view();
    let mut rest = chain;
    let mut parents: Option<LoadedConfig> = None;
    while rest.len() > 0
        invariant
            all == chain.deep_view(),
            rest.len() <= all.len(),
            rest.deep_view() == all.take(rest.len() as int),
            match parents {
                None => rest.len() == all.len(),
                Some(p) => rest.len() < all.len() && chain_from(all, rest.len() as int, check_paths)
                    == Ok::<LoadedView, ErrorView>(p@),
            },
        decreases rest.len(),
    {
        let ghost k = rest.len() - 1;
        proof {
            assert(rest.deep_view()[k] == rest[k]@);
            assert(all.take(rest.len() as int)[k] == all[k]);
            assert(all.take(rest.len() as int).take(k) =~= all.take(k));
        }
        let child = match rest.pop() {
            Some(child) => child,
            None => {
                return Err(crate::errors::generic_error("No configuration to load"));
            },
        };
        proof {
            assert(rest.deep_view() =~= all.take(k));
            assert(child@ == all[k]);
        }
        let ghost above: Option<LoadedView> = if parents is Some {
            Some(parents->Some_0@)
        } else {
            None
        };
        let own = match parents {
            None => child,
            Some(p) => {
                let roots = if child.config.root.len() == 0 {
                    p.found.roots
                } else {
                    child.found.roots
                };
                let download = child.found.download;
                LoadedConfig {
                    config: merge_configs(p.config, child.config),
                    found: PathChecks { roots, download },
                }
            },
        };
        let outcome = if check_paths {
            own.config.validate(Some(&own.found))
        } else {
            own.config.validate(None)
        };
        proof {
            assert(own@ == match above {
                Some(p) => laid_over(p, all[k]),
                None => all[k],
            });
            assert(chain_from(all, k, check_paths) == match loaded_failure(own@, check_paths) {
                Some(detail) => Err::<LoadedView, ErrorView>(
                    ErrorView::ConfigValidation { detail },
                ),
                None => Ok::<LoadedView, ErrorView>(own@),
            });
        }
        match outcome {
            Ok(()) => {},
            Err(e) => {
                proof {
                    lemma_chain_fails_below(all, k, check_paths, 0);
                }
                return Err(e);
            },
        }
        parents = Some(own);
    }
    match parents {
        Some(loaded) => Ok(loaded.config),
        None => Err(crate::errors::generic_error("No configuration to load")),
    }
}

/// A valid configuration with one valid parent comes to the configuration
/// laid over the parent, as long as that is valid too.
pub proof fn lemma_chain_of_two(child: LoadedView, parent: LoadedView, check_paths: bool)
    requires
        loaded_failure(parent, check_paths) is None,
        loaded_failure(laid_over(parent, child), check_paths) is None,
    ensures
        chain_from(seq![child, parent], 0, check_paths) == Ok::<LoadedView, ErrorView>(
            laid_over(parent, child),
        ),
{
    let chain = seq![child, parent];
    assert(chain_from(chain, 1, check_paths) == Ok::<LoadedView, ErrorView>(parent));
}

/// Where the chain fails from position `k` on, it fails from every position
/// before `k` with the same error.
pub proof fn lemma_chain_fails_below(chain: Seq<LoadedView>, k: int, check_paths: bool, j: int)
    requires
        0 <= j <= k < chain.len(),
        chain_from(chain, k, check_paths) is Err,
    ensures
        chain_from(chain, j, check_paths) == chain_from(chain, k, check_paths),
    decreases k - j,
{
    if j < k {
        lemma_chain_fails_below(chain, k, check_paths, j + 1);
    }
}

/// The path of the configuration file to use: `config` where it exists, and
/// else `config` under the directory for the program's configuration.
pub fn create_config_if_not_exists(config: String, config_dir: Option<&str>) -> (r: Result<
    String,
    Error,
>)
    ensures
        match config_dir {
            Some(dir) => r is Ok && r->Ok_0@ == joined(dir@, config@),
            None => r is Err && r->Err_0@ == (ErrorView::Generic {
                message: "Failed to determine project directories"@,
            }),
        },
{
    match config_dir {
        Some(dir) => Ok(full_path(dir, config.as_str())),
        None => Err(crate::errors::generic_error("Failed to determine project directories")),
    }
}

/// The path of the configuration file to use: `config` where it exists, and
/// else `config` under the directory for the program's configuration, which
/// must then be known.
pub fn read_or_create(config: String, exists: bool, config_dir: Option<&str>) -> (r: Result<
    String,
    Error,
>)
    ensures
        exists ==> r is Ok && r->Ok_0@ == config@,
        !exists ==> match config_dir {
            Some(dir) => r is Ok && r->Ok_0@ == joined(dir@, config@),
            None => r is Err && r->Err_0@ == (ErrorView::Generic {
                message: "Failed to determine project directories"@,
            }),
        },
{
    if !exists {
        create_config_if_not_exists(config, config_dir)
    } else {
        Ok(config)
    }
}

} // verus!
