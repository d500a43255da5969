//! Matching files against rules.
//!
//! A rule applies to a file when the file's name matches the rule's pattern
//! and the file meets the rule's conditions. A condition that cannot be
//! evaluated counts as not met. Every rule of the list is tried, in its
//! order: a file may match several.

use vstd::prelude::*;
use vstd::string::*;
use crate::content::{
    analyse_file_content, analysis_of, condition_outcome, evaluate_condition,
    ConditionOutcome, ContentAnalysis, ContentAnalysisView, ContentCondition,
    ContentConditionView, Timestamp,
};
use crate::errors::{bad_pattern, error_matches, Error, ErrorView};
use crate::paths::{file_name, file_name_of, is_hidden, is_hidden_file};
use crate::regex_engine::{is_match, regex_compiles, regex_matches};
use crate::rules::{Rule, RuleView};

verus! {

/// A file that was found, with what is known of it.
#[derive(Debug)]
pub struct FileInfo {
    /// The path of the file.
    pub path: String,
    /// The file name, which is what rules match.
    pub filename: String,
    /// The analysis of the file, once it has been made.
    pub content_analysis: Option<ContentAnalysis>,
}

/// A [`FileInfo`] with its texts as sequences of characters.
pub struct FileInfoView {
    pub path: Seq<char>,
    pub filename: Seq<char>,
    pub content_analysis: Option<ContentAnalysisView>,
}

/// What was found in a directory under one path.
#[derive(Debug)]
pub struct DirectoryEntry {
    /// The path.
    pub path: String,
    /// Whether a regular file is there.
    pub is_file: bool,
}

/// A [`DirectoryEntry`] with its path as a sequence of characters.
pub struct DirectoryEntryView {
    pub path: Seq<char>,
    pub is_file: bool,
}

/// A rule that applies to a file.
#[derive(Debug)]
pub struct MatchResult {
    /// The file.
    pub file_info: FileInfo,
    /// The rule.
    pub rule: Rule,
    /// Which root the file goes under: that of the rule.
    pub root_index: usize,
}

impl View for FileInfo {
    type V = FileInfoView;

    open spec fn view(&self) -> FileInfoView {
        FileInfoView {
            path: self.path@,
            filename: self.filename@,
            content_analysis: self.content_analysis.deep_view(),
        }
    }
}

impl DeepView for FileInfo {
    type V = FileInfoView;

    open spec fn deep_view(&self) -> FileInfoView {
        self@
    }
}

impl View for DirectoryEntry {
    type V = DirectoryEntryView;

    open spec fn view(&self) -> DirectoryEntryView {
        DirectoryEntryView { path: self.path@, is_file: self.is_file }
    }
}

impl DeepView for DirectoryEntry {
    type V = DirectoryEntryView;

    open spec fn deep_view(&self) -> DirectoryEntryView {
        self@
    }
}

impl Clone for FileInfo {
    fn clone(&self) -> (r: Self)
        ensures
            r@ == self@,
    {
        let content_analysis = match &self.content_analysis {
            Some(a) => Some(a.clone()),
            None => None,
        };
        FileInfo { path: self.path.clone(), filename: self.filename.clone(), content_analysis }
    }
}

impl Clone for MatchResult {
    fn clone(&self) -> (r: Self)
        ensures
            r.file_info@ == self.file_info@,
            r.rule@ == self.rule@,
            r.root_index == self.root_index,
    {
        MatchResult {
            file_info: self.file_info.clone(),
            rule: self.rule.clone(),
            root_index: self.root_index,
        }
    }
}

/// Whether an entry of a directory is a file to sort: a regular file that is
/// not hidden.
pub open spec fn is_listed(entry: DirectoryEntryView) -> bool {
    entry.is_file && !is_hidden(entry.path) && file_name_of(entry.path) is Some
}

/// The file at a path that has a file name, as it is found.
pub open spec fn found_at(path: Seq<char>) -> FileInfoView {
    FileInfoView { path, filename: file_name_of(path)->Some_0, content_analysis: None }
}

/// The files to sort among the entries of a directory, in their order.
pub open spec fn scanned(entries: Seq<DirectoryEntryView>) -> Seq<FileInfoView> {
    entries.filter(|e: DirectoryEntryView| is_listed(e)).map_values(
        |e: DirectoryEntryView| found_at(e.path),
    )
}

/// Whether one of `patterns` is a regular expression that matches `name`.
pub open spec fn any_pattern_matches(patterns: Seq<Seq<char>>, name: Seq<char>) -> bool {
    exists|i: int|
        0 <= i < patterns.len() && regex_compiles(#[trigger] patterns[i]) && regex_matches(
            patterns[i],
            name,
        )
}

/// Whether the name of a file matches a rule: the compiled pattern where the
/// rule has one, else any of its listed patterns. A rule with neither matches
/// every name if it has conditions, and none if it has not.
pub open spec fn name_matches(rule: RuleView, name: Seq<char>) -> Result<bool, ErrorView> {
    if rule.old_pattern.len() > 0 {
        if regex_compiles(rule.old_pattern) {
            Ok(regex_matches(rule.old_pattern, name))
        } else {
            Err(bad_pattern(rule.old_pattern))
        }
    } else {
        match rule.patterns {
            Some(patterns) => Ok(any_pattern_matches(patterns, name)),
            None => Ok(rule.content_conditions is Some),
        }
    }
}

/// The condition `c` can be evaluated on `a` and holds.
pub open spec fn condition_holds(c: ContentConditionView, a: ContentAnalysisView) -> bool {
    condition_outcome(c, a) == ConditionOutcome::Decided(true)
}

/// Whether `conditions` are met: all of them, or any one of them.
pub open spec fn conditions_hold(
    all: bool,
    conditions: Seq<ContentConditionView>,
    a: ContentAnalysisView,
) -> bool {
    if all {
        forall|i: int| 0 <= i < conditions.len() ==> condition_holds(#[trigger] conditions[i], a)
    } else {
        exists|i: int| 0 <= i < conditions.len() && condition_holds(#[trigger] conditions[i], a)
    }
}

/// The error of a rule whose conditions need an analysis that the file does not bring.
pub open spec fn no_analysis(name: Seq<char>) -> ErrorView {
    ErrorView::Generic { message: "No content analysis for file: "@ + name }
}

/// Whether a rule needs the analysis of a file to decide: the name matches,
/// and the rule has at least one condition.
pub open spec fn needs_content(rule: RuleView, name: Seq<char>) -> bool {
    name_matches(rule, name) == Ok::<bool, ErrorView>(true) && rule.content_conditions is Some
        && rule.content_conditions->0.len() > 0
}

/// Whether a rule applies to a file, or why that cannot be told.
pub open spec fn rule_outcome(rule: RuleView, file: FileInfoView) -> Result<bool, ErrorView> {
    match name_matches(rule, file.filename) {
        Err(e) => Err(e),
        Ok(matched) => if !matched || !needs_content(rule, file.filename) {
            Ok(matched)
        } else {
            match file.content_analysis {
                None => Err(no_analysis(file.filename)),
                Some(a) => Ok(
                    conditions_hold(rule.match_all_conditions, rule.content_conditions->0, a),
                ),
            }
        },
    }
}

/// A rule applies to a file: it can be told, and the answer is yes.
pub open spec fn rule_applies(rule: RuleView, file: FileInfoView) -> bool {
    rule_outcome(rule, file) == Ok::<bool, ErrorView>(true)
}

/// The rules of a list that apply to a file, in their order.
pub open spec fn applying_rules(rules: Seq<RuleView>, file: FileInfoView) -> Seq<RuleView> {
    rules.filter(|rule: RuleView| rule_applies(rule, file))
}

/// Whether a result is the given answer.
pub open spec fn answer_is(r: Result<bool, Error>, expected: Result<bool, ErrorView>) -> bool {
    match expected {
        Ok(b) => r == Ok::<bool, Error>(b),
        Err(e) => r is Err && error_matches(r->Err_0@, e),
    }
}

impl FileInfo {
    /// The file at `path`, not yet analysed. A path without a file name is no file.
    pub fn new(path: String) -> (r: Result<FileInfo, Error>)
        ensures
            match file_name_of(path@) {
                Some(name) => r is Ok && r->Ok_0@ == (FileInfoView {
                    path: path@,
                    filename: name,
                    content_analysis: None,
                }),
                None => r is Err && r->Err_0@ == (ErrorView::Generic {
                    message: "Failed to get filename from path: "@ + path@,
                }),
            },
    {
        match file_name(path.as_str()) {
            Some(filename) => Ok(FileInfo { path, filename, content_analysis: None }),
            None => {
                let message = String::from_str("Failed to get filename from path: ").concat(
                    path.as_str(),
                );
                Err(Error::Generic { message })
            },
        }
    }

    /// Makes the analysis of the file from what was read of it, unless the
    /// file brings one already.
    pub fn ensure_content_analysed(
        &mut self,
        size: u64,
        modified: Timestamp,
        created: Timestamp,
        head: &Vec<u8>,
    )
        ensures
            final(self)@ == (FileInfoView {
                content_analysis: Some(
                    match old(self)@.content_analysis {
                        Some(a) => a,
                        None => analysis_of(old(self)@.path, size, modified, created, head@),
                    },
                ),
                ..old(self)@
            }),
    {
        if self.content_analysis.is_none() {
            self.content_analysis = Some(
                analyse_file_content(self.path.as_str(), size, modified, created, head),
            );
        }
    }
}

/// Whether one of `patterns` is a regular expression that matches `name`.
pub fn matches_any(patterns: &Vec<String>, name: &str) -> (r: bool)
    ensures
        r == any_pattern_matches(patterns.deep_view(), name@),
{
    let mut i: usize = 0;
    while i < patterns.len()
        invariant
            i <= patterns.len(),
            forall|k: int|
                0 <= k < i ==> !(regex_compiles(#[trigger] patterns.deep_view()[k])
                    && regex_matches(patterns.deep_view()[k], name@)),
        decreases patterns.len() - i,
    {
        proof {
            assert(patterns.deep_view()[i as int] == patterns[i as int]@);
        }
        match is_match(patterns[i].as_str(), name) {
            Ok(true) => {
                return true;
            },
            _ => {},
        }
        i += 1;
    }
    false
}

/// Whether the name of a file matches a rule.
pub fn matches_name(rule: &Rule, name: &str) -> (r: Result<bool, Error>)
    ensures
        answer_is(r, name_matches(rule@, name@)),
{
    if rule.old_pattern.as_str().unicode_len() > 0 {
        match is_match(rule.old_pattern.as_str(), name) {
            Ok(found) => Ok(found),
            Err(detail) => Err(
                Error::PatternMatching { detail, pattern: rule.old_pattern.clone() },
            ),
        }
    } else if let Some(patterns) = &rule.patterns {
        Ok(matches_any(patterns, name))
    } else {
        Ok(rule.content_conditions.is_some())
    }
}

/// Whether the conditions are met on the analysis: all of them, or any one.
/// A condition that cannot be evaluated is not met.
pub fn check_conditions(all: bool, conditions: &Vec<ContentCondition>, analysis: &ContentAnalysis) -> (r:
    bool)
    ensures
        r == conditions_hold(all, conditions.deep_view(), analysis@),
{
    let mut all_match = true;
    let mut any_match = false;
    let mut i: usize = 0;
    while i < conditions.len()
        invariant
            i <= conditions.len(),
            all_match == (forall|k: int|
                0 <= k < i ==> condition_holds(#[trigger] conditions.deep_view()[k], analysis@)),
            any_match == (exists|k: int|
                0 <= k < i && condition_holds(#[trigger] conditions.deep_view()[k], analysis@)),
        decreases conditions.len() - i,
    {
        proof {
            assert(conditions.deep_view()[i as int] == conditions[i as int]@);
        }
        let holds = match evaluate_condition(&conditions[i], analysis) {
            Ok(met) => met,
            Err(_) => false,
        };
        assert(holds == condition_holds(conditions.deep_view()[i as int], analysis@));
        if holds {
            any_match = true;
        } else {
            all_match = false;
        }
        i += 1;
    }
    if all {
        all_match
    } else {
        any_match
    }
}

/// Whether a rule applies to a file: its name matches, and it meets the
/// rule's conditions, if the rule has any. It is an error for the rule's
/// pattern to be no regular expression, and for the rule to need an analysis
/// that the file does not bring.
pub fn does_rule_match(file_info: &FileInfo, rule: &Rule) -> (r: Result<bool, Error>)
    ensures
        answer_is(r, rule_outcome(rule@, file_info@)),
{
    let pattern_match = match matches_name(rule, file_info.filename.as_str()) {
        Ok(matched) => matched,
        Err(e) => {
            return Err(e);
        },
    };
    if !pattern_match {
        return Ok(false);
    }
    let conditions = match &rule.content_conditions {
        Some(conditions) => conditions,
        None => {
            return Ok(true);
        },
    };
    if conditions.len() == 0 {
        return Ok(true);
    }
    match &file_info.content_analysis {
        Some(analysis) => Ok(check_conditions(rule.match_all_conditions, conditions, analysis)),
        None => {
            let message = String::from_str("No content analysis for file: ").concat(
                file_info.filename.as_str(),
            );
            Err(Error::Generic { message })
        },
    }
}

/// Whether some rule of the list needs the analysis of the file, which the
/// file does not bring yet: the caller reads the file only then.
pub fn needs_content_analysis(file_info: &FileInfo, rules: &Vec<Rule>) -> (r: bool)
    ensures
        r == (file_info.content_analysis is None && exists|i: int|
            0 <= i < rules.len() && needs_content(
                #[trigger] rules.deep_view()[i],
                file_info.filename@,
            )),
{
    if file_info.content_analysis.is_some() {
        return false;
    }
    let mut i: usize = 0;
    while i < rules.len()
        invariant
            i <= rules.len(),
            file_info.content_analysis is None,
            forall|k: int|
                0 <= k < i ==> !needs_content(#[trigger] rules.deep_view()[k], file_info.filename@),
        decreases rules.len() - i,
    {
        proof {
            assert(rules.deep_view()[i as int] == rules[i as int]@);
        }
        let rule = &rules[i];
        let has_conditions = match &rule.content_conditions {
            Some(conditions) => conditions.len() > 0,
            None => false,
        };
        if has_conditions {
            match matches_name(rule, file_info.filename.as_str()) {
                Ok(true) => {
                    assert(needs_content(rules.deep_view()[i as int], file_info.filename@));
                    return true;
                },
                _ => {},
            }
        }
        i += 1;
    }
    false
}

/// The rules of the list that apply to the file, in their order, each with
/// the file and with the root that the rule names. A rule that cannot be
/// decided does not apply.
pub fn match_file_against_rules(file_info: &FileInfo, rules: &Vec<Rule>) -> (r: Result<
    Vec<MatchResult>,
    Error,
>)
    ensures
        r is Ok,
        r->Ok_0.len() == applying_rules(rules.deep_view(), file_info@).len(),
        forall|i: int|
            0 <= i < r->Ok_0.len() ==> {
                &&& (#[trigger] r->Ok_0[i]).rule@ == applying_rules(rules.deep_view(), file_info@)[i]
                &&& r->Ok_0[i].file_info@ == file_info@
                &&& r->Ok_0[i].root_index == r->Ok_0[i].rule.root
            },
{
    let mut matches: Vec<MatchResult> = Vec::new();
    let ghost applies = |rule: RuleView| rule_applies(rule, file_info@);
    let mut i: usize = 0;
    proof {
        assert(rules.deep_view().take(0) =~= Seq::<RuleView>::empty());
    }
    while i < rules.len()
        invariant
            i <= rules.len(),
            applies == (|rule: RuleView| rule_applies(rule, file_info@)),
            matches.len() == rules.deep_view().take(i as int).filter(applies).len(),
            forall|k: int|
                0 <= k < matches.len() ==> {
                    &&& (#[trigger] matches[k]).rule@ == rules.deep_view().take(i as int).filter(
                        applies,
                    )[k]
                    &&& matches[k].file_info@ == file_info@
                    &&& matches[k].root_index == matches[k].rule.root
                },
        decreases rules.len() - i,
    {
        let rule = &rules[i];
        proof {
            let so_far = rules.deep_view().take(i as int);
            let next = rules.deep_view().take(i + 1);
            assert(next =~= so_far.push(rule@));
            assert(next.drop_last() =~= so_far);
            reveal(Seq::filter);
        }
        let applies_here = match does_rule_match(file_info, rule) {
            Ok(true) => true,
            _ => false,
        };
        if applies_here {
            matches.push(
                MatchResult { file_info: file_info.clone(), rule: rule.clone(), root_index: rule.root },
            );
        }
        i += 1;
    }
    proof {
        assert(rules.deep_view().take(rules.len() as int) =~= rules.deep_view());
    }
    Ok(matches)
}

/// The files to sort among the entries of a directory: the regular files
/// that are not hidden, in the order of the entries, none of them analysed.
pub fn scan_directory(entries: &Vec<DirectoryEntry>) -> (r: Vec<FileInfo>)
    ensures
        r.deep_view() == scanned(entries.deep_view()),
{
    let ghost all = entries.deep_view();
    let ghost keep = |e: DirectoryEntryView| is_listed(e);
    let ghost form = |e: DirectoryEntryView| found_at(e.path);
    let mut files: Vec<FileInfo> = Vec::new();
    let mut i: usize = 0;
    proof {
        assert(all.take(0) =~= Seq::<DirectoryEntryView>::empty());
        assert(all.take(0).filter(keep) =~= Seq::<DirectoryEntryView>::empty());
        assert(files.deep_view() =~= Seq::<FileInfoView>::empty());
    }
    while i < entries.len()
        invariant
            i <= entries.len(),
            all == entries.deep_view(),
            keep == (|e: DirectoryEntryView| is_listed(e)),
            form == (|e: DirectoryEntryView| found_at(e.path)),
            files.deep_view() == all.take(i as int).filter(keep).map_values(form),
        decreases entries.len() - i,
    {
        let entry = &entries[i];
        proof {
            assert(all[i as int] == entry@);
            let so_far = all.take(i as int);
            let next = all.take(i + 1);
            assert(next =~= so_far.push(all[i as int]));
            assert(next.drop_last() =~= so_far);
            reveal(Seq::filter);
        }
        let mut kept = false;
        if entry.is_file && !is_hidden_file(entry.path.as_str()) {
            if let Ok(file) = FileInfo::new(entry.path.clone()) {
                let ghost before = files.deep_view();
                files.push(file);
                proof {
                    assert(is_listed(all[i as int]));
                    assert(files.deep_view() =~= before.push(found_at(entry@.path)));
                    assert(all.take(i + 1).filter(keep) =~= all.take(i as int).filter(keep).push(
                        all[i as int],
                    ));
                    assert(all.take(i + 1).filter(keep).map_values(form) =~= before.push(
                        found_at(entry@.path),
                    ));
                }
                kept = true;
            }
        }
        proof {
            if !kept {
                assert(!is_listed(all[i as int]));
                assert(all.take(i + 1).filter(keep) =~= all.take(i as int).filter(keep));
            }
        }
        i += 1;
    }
    proof {
        assert(all.take(entries.len() as int) =~= all);
    }
    files
}

} // verus!
