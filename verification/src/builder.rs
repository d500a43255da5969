//! From a file and a rule to the place where the file goes.
//!
//! For one file and one rule there are four outcomes: the rule does not
//! apply; it applies and no directory can be found; it applies and the new
//! path cannot be made; or the file has a destination, under its old name or
//! under a new one.

use vstd::prelude::*;
use vstd::string::*;
use crate::dates::today;
use crate::destination::{
    conversion_decided, convert_file_format, generate_destination_path_on, generated_path,
    lemma_generated_day_is_idle, ConversionKind,
};
use crate::errors::{error_matches, Error, ErrorView};
use crate::matcher::{does_rule_match, rule_applies, FileInfo, FileInfoView};
use crate::paths::{file_name, file_name_of};
use crate::processor::rule_depends_on_day;
use crate::rules::{Rule, RuleView};
use crate::transformer::{
    apply_transformative_function, is_pick, named_directory, TransformResult,
};

verus! {

/// What came of one file under one rule.
#[derive(Debug)]
pub enum BuildOutcome {
    /// The rule does not apply to the file.
    NoMatch,
    /// The rule applies, and its directory could not be found.
    DirectoryResolutionFailed(Error),
    /// The rule applies, and the new path could not be made.
    Failed(Error),
    /// The file has a destination.
    Matched {
        /// The path of the file.
        source: String,
        /// The path that the file is to have.
        destination: String,
        /// Whether the file gets a new name.
        changed: bool,
        /// The conversion that the caller is to carry out, if any.
        conversion: Option<ConversionKind>,
    },
}

/// A [`BuildOutcome`] with its texts as sequences of characters.
pub enum BuiltView {
    NoMatch,
    DirectoryResolutionFailed(ErrorView),
    Failed(ErrorView),
    Matched {
        source: Seq<char>,
        destination: Seq<char>,
        changed: bool,
        conversion: Option<ConversionKind>,
    },
}

impl View for BuildOutcome {
    type V = BuiltView;

    open spec fn view(&self) -> BuiltView {
        match *self {
            BuildOutcome::NoMatch => BuiltView::NoMatch,
            BuildOutcome::DirectoryResolutionFailed(e) => BuiltView::DirectoryResolutionFailed(e@),
            BuildOutcome::Failed(e) => BuiltView::Failed(e@),
            BuildOutcome::Matched { source, destination, changed, conversion } => BuiltView::Matched {
                source: source@,
                destination: destination@,
                changed,
                conversion,
            },
        }
    }
}

/// What comes of the file at `source`, whose name is `name`, under a rule
/// that applies to it, once its directory `dir` is found, when today is day
/// `day`.
pub open spec fn built_in(
    source: Seq<char>,
    name: Seq<char>,
    rule: RuleView,
    dir: Seq<char>,
    day: int,
) -> BuiltView {
    match generated_path(source, dir, rule, day) {
        Err(e) => BuiltView::Failed(e),
        Ok(target) => match conversion_decided(source, target, rule) {
            Err(e) => BuiltView::Failed(e),
            Ok((destination, conversion)) => BuiltView::Matched {
                source,
                destination,
                changed: file_name_of(destination) != Some(name),
                conversion,
            },
        },
    }
}

/// What comes of a file under a rule without a selector, when today is day
/// `day`.
pub open spec fn built(file_path: Seq<char>, name: Seq<char>, rule: RuleView, roots: Seq<Seq<char>>, day: int) -> BuiltView {
    if rule.root >= roots.len() {
        BuiltView::DirectoryResolutionFailed(
            ErrorView::Generic { message: "Root index out of bounds"@ },
        )
    } else {
        match named_directory(rule, roots[rule.root as int], file_path) {
            Err(e) => BuiltView::DirectoryResolutionFailed(e),
            Ok(dir) => built_in(file_path, name, rule, dir, day),
        }
    }
}

/// Whether an outcome is the expected one, an error being taken for what
/// it says apart from an outside crate's wording.
pub open spec fn outcome_is(r: BuiltView, expected: BuiltView) -> bool {
    match expected {
        BuiltView::DirectoryResolutionFailed(e) => r is DirectoryResolutionFailed && error_matches(
            r->DirectoryResolutionFailed_0,
            e,
        ),
        BuiltView::Failed(e) => r is Failed && error_matches(r->Failed_0, e),
        _ => r == expected,
    }
}

/// Building twice gives the same: two outcomes for the same file, rule and
/// directory are both a destination or both none, and where they are a
/// destination, source, destination, change of name and conversion agree.
/// The two may be built on different days, unless the rule's splitter is a
/// date format.
pub proof fn lemma_build_idempotent(
    first: BuiltView,
    second: BuiltView,
    source: Seq<char>,
    name: Seq<char>,
    rule: RuleView,
    dir: Seq<char>,
    day: int,
    other_day: int,
)
    requires
        outcome_is(first, built_in(source, name, rule, dir, day)),
        outcome_is(second, built_in(source, name, rule, dir, other_day)),
        day == other_day || !rule_depends_on_day(rule.processors),
    ensures
        first is Matched <==> second is Matched,
        first is Failed <==> second is Failed,
        first is Matched ==> first == second,
{
    if day != other_day {
        lemma_generated_day_is_idle(source, dir, rule, day, other_day);
    }
}

/// What comes of a file under a rule that applies to it, once its directory
/// is found, taking `day` for today: the destination is made, the conversion
/// is decided, and the new name is held against the old.
pub fn build_in(file: &FileInfo, rule: &Rule, target_dir: &str, day: i32) -> (r: BuildOutcome)
    ensures
        outcome_is(r@, built_in(file@.path, file@.filename, rule@, target_dir@, day as int)),
{
    let found = TransformResult {
        source_path: file.path.clone(),
        target_dir: String::from_str(target_dir),
        rule: rule.clone(),
    };
    let path = match generate_destination_path_on(&found, day) {
        Ok(path) => path,
        Err(e) => {
            return BuildOutcome::Failed(e);
        },
    };
    let decided = match convert_file_format(&path) {
        Ok(decided) => decided,
        Err(e) => {
            return BuildOutcome::Failed(e);
        },
    };
    let changed = match file_name(decided.target_path.as_str()) {
        Some(new_name) => new_name != file.filename,
        None => true,
    };
    BuildOutcome::Matched {
        source: decided.source_path,
        destination: decided.target_path,
        changed,
        conversion: decided.conversion,
    }
}

/// Whether `outcome` is what comes of a file under a rule when today is day
/// `day`: nothing where the rule does not apply; for a rule without a
/// selector, what [`built`] says; for a rule with a selector, no directory,
/// or what [`built_in`] says for a directory that the selector picks.
pub open spec fn is_build_of(
    outcome: BuiltView,
    file: FileInfoView,
    rule: RuleView,
    roots: Seq<Seq<char>>,
    day: int,
) -> bool {
    if !rule_applies(rule, file) {
        outcome is NoMatch
    } else if rule.function is None {
        outcome_is(outcome, built(file.path, file.filename, rule, roots, day))
    } else {
        outcome is DirectoryResolutionFailed || exists|dir: Seq<char>|
            is_pick(rule.function->Some_0, dir) && outcome_is(
                outcome,
                #[trigger] built_in(file.path, file.filename, rule, dir, day),
            )
    }
}

/// What comes of a file under a rule, taking `day` for today. A rule that
/// cannot be decided does not apply. For a rule with a selector the
/// directory is the one that the selector picks on disk now; what follows is
/// stated by [`build_in`].
pub fn build_on(file: &FileInfo, rule: &Rule, roots: &Vec<String>, day: i32) -> (r: BuildOutcome)
    ensures
        is_build_of(r@, file@, rule@, roots.deep_view(), day as int),
{
    match does_rule_match(file, rule) {
        Ok(true) => {},
        _ => {
            return BuildOutcome::NoMatch;
        },
    }
    let found = match apply_transformative_function(file.path.as_str(), roots, rule) {
        Ok(found) => found,
        Err(e) => {
            return BuildOutcome::DirectoryResolutionFailed(e);
        },
    };
    proof {
        if rule.root < roots.len() {
            assert(roots.deep_view()[rule.root as int] == roots[rule.root as int]@);
        }
    }
    let r = build_in(file, rule, found.target_dir.as_str(), day);
    proof {
        assert(outcome_is(
            r@,
            built_in(file@.path, file@.filename, rule@, found.target_dir@, day as int),
        ));
    }
    r
}

/// What comes of a file under each rule of a list, in the order of the rules
/// and one outcome for each, taking `day` for today. No rule sees what became
/// of another.
pub fn build_all_on(file: &FileInfo, rules: &Vec<Rule>, roots: &Vec<String>, day: i32) -> (r: Vec<
    BuildOutcome,
>)
    ensures
        r.len() == rules.len(),
        forall|i: int|
            0 <= i < rules.len() ==> is_build_of(
                (#[trigger] r[i])@,
                file@,
                rules[i]@,
                roots.deep_view(),
                day as int,
            ),
{
    let mut outcomes: Vec<BuildOutcome> = Vec::new();
    let mut i: usize = 0;
    while i < rules.len()
        invariant
            i <= rules.len(),
            outcomes.len() == i,
            forall|k: int|
                0 <= k < i ==> is_build_of(
                    (#[trigger] outcomes[k])@,
                    file@,
                    rules[k]@,
                    roots.deep_view(),
                    day as int,
                ),
        decreases rules.len() - i,
    {
        outcomes.push(build_on(file, &rules[i], roots, day));
        i += 1;
    }
    outcomes
}

/// What comes of a file under a rule: [`build_on`] on the day of the call.
/// Where the rule's splitter is no date format, the day makes no difference.
pub fn build(file: &FileInfo, rule: &Rule, roots: &Vec<String>) -> (r: BuildOutcome)
    ensures
        exists|day: int|
            i32::MIN <= day <= i32::MAX && #[trigger] is_build_of(
                r@,
                file@,
                rule@,
                roots.deep_view(),
                day,
            ),
        !rule_depends_on_day(rule@.processors) ==> is_build_of(
            r@,
            file@,
            rule@,
            roots.deep_view(),
            0,
        ),
{
    let day = today();
    let r = build_on(file, rule, roots, day);
    proof {
        assert(is_build_of(r@, file@, rule@, roots.deep_view(), day as int));
        if !rule_depends_on_day(rule@.processors) {
            lemma_build_day_is_idle(r@, file@, rule@, roots.deep_view(), day as int, 0);
        }
    }
    r
}

/// Under a rule whose splitter is no date format, what comes of a file on
/// one day comes of it on any other.
pub proof fn lemma_build_day_is_idle(
    outcome: BuiltView,
    file: FileInfoView,
    rule: RuleView,
    roots: Seq<Seq<char>>,
    day: int,
    other: int,
)
    requires
        !rule_depends_on_day(rule.processors),
        is_build_of(outcome, file, rule, roots, day),
    ensures
        is_build_of(outcome, file, rule, roots, other),
{
    if rule_applies(rule, file) {
        if rule.function is None {
            if rule.root < roots.len() {
                match named_directory(rule, roots[rule.root as int], file.path) {
                    Ok(dir) => {
                        lemma_generated_day_is_idle(file.path, dir, rule, day, other);
                    },
                    Err(_) => {},
                }
            }
        } else if !(outcome is DirectoryResolutionFailed) {
            let dir = choose|dir: Seq<char>|
                is_pick(rule.function->Some_0, dir) && outcome_is(
                    outcome,
                    #[trigger] built_in(file.path, file.filename, rule, dir, day),
                );
            lemma_generated_day_is_idle(file.path, dir, rule, day, other);
            assert(outcome_is(outcome, built_in(file.path, file.filename, rule, dir, other)));
        }
    }
}

} // verus!
