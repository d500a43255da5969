//! Rules: what to match, and where a matching file goes.
//!
//! A rule of the configuration may list several patterns. Before anything is
//! matched, such a rule is expanded into one rule for each pattern, and each
//! rule's pattern is compiled into the pattern to match and the template for
//! the new name. A rule whose pattern to match is no regular expression is a
//! fault of the configuration: preparing the rules fails on the first such
//! rule, with its title in the error.

use vstd::prelude::*;
use vstd::string::*;
use crate::content::{ContentCondition, ContentConditionView};
use crate::errors::{Error, ErrorView};
use crate::pattern::{compile, extraction_template, match_pattern};
use crate::regex_engine::{check_pattern, regex_compiles};
use crate::transformer::{FolderFunction, FolderFunctionView};

verus! {

/// A conversion of a file to another format.
#[derive(Debug, PartialEq, Eq)]
pub struct FormatConversion {
    /// The format to convert from, such as `jpg` or `utf-8`.
    pub source_format: String,
    /// The format to convert to.
    pub target_format: String,
    /// The width and height to resize an image to.
    pub resize: Option<(u32, u32)>,
}

/// How the name of a matching file is rewritten.
#[derive(Debug, PartialEq, Eq)]
pub struct ConfigProcessor {
    /// Where to split the name. A splitter that holds `%` is a date format.
    pub splitter: Option<String>,
    /// What to put between the date and the rest of the name.
    pub merger: Option<String>,
    /// A regular expression to replace in the name.
    pub pattern: Option<String>,
    /// The format in which the date is written.
    pub date_format: Option<String>,
    /// What to put for the first match of `pattern`.
    pub replacement: Option<String>,
    /// A conversion of the file itself.
    pub format_conversion: Option<FormatConversion>,
}

/// A list of rules, in the order in which they are tried.
pub type RulesList = Vec<Rule>;

/// The two ways in which a configuration lists its rules.
#[derive(Debug)]
pub enum Rules {
    /// One list of rules.
    SingleRule(RulesList),
    /// One list for each root directory, in the order of the roots.
    RootRules(Vec<RulesList>),
}

/// A rule: which files it applies to, and where they go.
#[derive(Debug, PartialEq, Eq)]
pub struct Rule {
    /// The title of the rule, and the directory of its files where no other is given.
    pub title: String,
    /// The pattern that a file name must match.
    pub pattern: Option<String>,
    /// Several patterns, each of which makes a rule of its own.
    pub patterns: Option<Vec<String>>,
    /// Conditions on the file beyond its name.
    pub content_conditions: Option<Vec<ContentCondition>>,
    /// Whether all conditions must hold, or any one of them.
    pub match_all_conditions: bool,
    /// The directory for the files, under the root.
    pub directory: Option<String>,
    /// A selector that picks the directory among those present.
    pub function: Option<FolderFunction>,
    /// How the file name is rewritten.
    pub processors: Option<ConfigProcessor>,
    /// Which of the configured roots the files go under.
    pub root: usize,
    /// Whether the file is copied instead of moved.
    pub copy: bool,
    /// The pattern to match, compiled from `pattern`.
    pub old_pattern: String,
    /// The template for the new name, compiled from `pattern`.
    pub new_pattern: String,
}

/// A [`FormatConversion`] with its texts as sequences of characters.
pub struct FormatConversionView {
    pub source_format: Seq<char>,
    pub target_format: Seq<char>,
    pub resize: Option<(u32, u32)>,
}

/// A [`ConfigProcessor`] with its texts as sequences of characters.
pub struct ConfigProcessorView {
    pub splitter: Option<Seq<char>>,
    pub merger: Option<Seq<char>>,
    pub pattern: Option<Seq<char>>,
    pub date_format: Option<Seq<char>>,
    pub replacement: Option<Seq<char>>,
    pub format_conversion: Option<FormatConversionView>,
}

/// A [`Rule`] with its texts as sequences of characters.
pub struct RuleView {
    pub title: Seq<char>,
    pub pattern: Option<Seq<char>>,
    pub patterns: Option<Seq<Seq<char>>>,
    pub content_conditions: Option<Seq<ContentConditionView>>,
    pub match_all_conditions: bool,
    pub directory: Option<Seq<char>>,
    pub function: Option<FolderFunctionView>,
    pub processors: Option<ConfigProcessorView>,
    pub root: usize,
    pub copy: bool,
    pub old_pattern: Seq<char>,
    pub new_pattern: Seq<char>,
}

impl View for FormatConversion {
    type V = FormatConversionView;

    open spec fn view(&self) -> FormatConversionView {
        FormatConversionView {
            source_format: self.source_format@,
            target_format: self.target_format@,
            resize: self.resize,
        }
    }
}

impl DeepView for FormatConversion {
    type V = FormatConversionView;

    open spec fn deep_view(&self) -> FormatConversionView {
        self@
    }
}

impl View for ConfigProcessor {
    type V = ConfigProcessorView;

    open spec fn view(&self) -> ConfigProcessorView {
        ConfigProcessorView {
            splitter: self.splitter.deep_view(),
            merger: self.merger.deep_view(),
            pattern: self.pattern.deep_view(),
            date_format: self.date_format.deep_view(),
            replacement: self.replacement.deep_view(),
            format_conversion: self.format_conversion.deep_view(),
        }
    }
}

impl DeepView for ConfigProcessor {
    type V = ConfigProcessorView;

    open spec fn deep_view(&self) -> ConfigProcessorView {
        self@
    }
}

impl View for Rule {
    type V = RuleView;

    open spec fn view(&self) -> RuleView {
        RuleView {
            title: self.title@,
            pattern: self.pattern.deep_view(),
            patterns: self.patterns.deep_view(),
            content_conditions: self.content_conditions.deep_view(),
            match_all_conditions: self.match_all_conditions,
            directory: self.directory.deep_view(),
            function: self.function.deep_view(),
            processors: self.processors.deep_view(),
            root: self.root,
            copy: self.copy,
            old_pattern: self.old_pattern@,
            new_pattern: self.new_pattern@,
        }
    }
}

impl DeepView for Rule {
    type V = RuleView;

    open spec fn deep_view(&self) -> RuleView {
        self@
    }
}

/// A copy of an optional text.
pub fn clone_text(text: &Option<String>) -> (r: Option<String>)
    ensures
        r.deep_view() == text.deep_view(),
{
    match text {
        Some(t) => Some(t.clone()),
        None => None,
    }
}

/// A copy of a list of texts.
pub fn clone_texts(texts: &Vec<String>) -> (r: Vec<String>)
    ensures
        r.deep_view() == texts.deep_view(),
{
    let mut r: Vec<String> = Vec::new();
    let mut i: usize = 0;
    while i < texts.len()
        invariant
            i <= texts.len(),
            r.len() == i,
            forall|k: int| 0 <= k < i ==> r[k]@ == texts[k]@,
        decreases texts.len() - i,
    {
        r.push(texts[i].clone());
        i += 1;
    }
    assert(r.deep_view() =~= texts.deep_view());
    r
}

/// A copy of an optional list of texts.
pub fn clone_optional_texts(texts: &Option<Vec<String>>) -> (r: Option<Vec<String>>)
    ensures
        r.deep_view() == texts.deep_view(),
{
    match texts {
        Some(t) => Some(clone_texts(t)),
        None => None,
    }
}

/// Whether two optional texts are the same.
pub fn same_text(a: &Option<String>, b: &Option<String>) -> (r: bool)
    ensures
        r == (a.deep_view() == b.deep_view()),
{
    match (a, b) {
        (Some(x), Some(y)) => *x == *y,
        (None, None) => true,
        _ => false,
    }
}

/// Whether two lists of texts are the same.
pub fn same_texts(a: &Vec<String>, b: &Vec<String>) -> (r: bool)
    ensures
        r == (a.deep_view() == b.deep_view()),
{
    if a.len() != b.len() {
        assert(a.deep_view().len() != b.deep_view().len());
        return false;
    }
    let mut i: usize = 0;
    while i < a.len()
        invariant
            i <= a.len(),
            a.len() == b.len(),
            forall|k: int| 0 <= k < i ==> a[k]@ == b[k]@,
        decreases a.len() - i,
    {
        if a[i] != b[i] {
            assert(a.deep_view()[i as int] != b.deep_view()[i as int]);
            return false;
        }
        i += 1;
    }
    assert(a.deep_view() =~= b.deep_view());
    true
}

/// Whether two optional lists of texts are the same.
pub fn same_optional_texts(a: &Option<Vec<String>>, b: &Option<Vec<String>>) -> (r: bool)
    ensures
        r == (a.deep_view() == b.deep_view()),
{
    match (a, b) {
        (Some(x), Some(y)) => same_texts(x, y),
        (None, None) => true,
        _ => false,
    }
}

impl Clone for FormatConversion {
    fn clone(&self) -> (r: Self)
        ensures
            r@ == self@,
    {
        FormatConversion {
            source_format: self.source_format.clone(),
            target_format: self.target_format.clone(),
            resize: self.resize,
        }
    }
}

impl FormatConversion {
    /// Whether two conversions are the same.
    pub fn same_as(&self, other: &FormatConversion) -> (r: bool)
        ensures
            r == (self@ == other@),
    {
        let same_size = match (self.resize, other.resize) {
            (Some(a), Some(b)) => a.0 == b.0 && a.1 == b.1,
            (None, None) => true,
            _ => false,
        };
        self.source_format == other.source_format && self.target_format == other.target_format
            && same_size
    }
}

impl Clone for ConfigProcessor {
    fn clone(&self) -> (r: Self)
        ensures
            r@ == self@,
    {
        let format_conversion = match &self.format_conversion {
            Some(c) => Some(c.clone()),
            None => None,
        };
        ConfigProcessor {
            splitter: clone_text(&self.splitter),
            merger: clone_text(&self.merger),
            pattern: clone_text(&self.pattern),
            date_format: clone_text(&self.date_format),
            replacement: clone_text(&self.replacement),
            format_conversion,
        }
    }
}

impl ConfigProcessor {
    /// Whether two processors are the same.
    pub fn same_as(&self, other: &ConfigProcessor) -> (r: bool)
        ensures
            r == (self@ == other@),
    {
        let same_conversion = match (&self.format_conversion, &other.format_conversion) {
            (Some(a), Some(b)) => a.same_as(b),
            (None, None) => true,
            _ => false,
        };
        same_text(&self.splitter, &other.splitter) && same_text(&self.merger, &other.merger)
            && same_text(&self.pattern, &other.pattern) && same_text(
            &self.date_format,
            &other.date_format,
        ) && same_text(&self.replacement, &other.replacement) && same_conversion
    }
}

/// A copy of a list of conditions.
pub fn clone_conditions(conditions: &Vec<ContentCondition>) -> (r: Vec<ContentCondition>)
    ensures
        r.deep_view() == conditions.deep_view(),
{
    let mut r: Vec<ContentCondition> = Vec::new();
    let mut i: usize = 0;
    while i < conditions.len()
        invariant
            i <= conditions.len(),
            r.len() == i,
            forall|k: int| 0 <= k < i ==> r[k]@ == conditions[k]@,
        decreases conditions.len() - i,
    {
        r.push(conditions[i].clone());
        i += 1;
    }
    assert(r.deep_view() =~= conditions.deep_view());
    r
}

/// Whether two lists of conditions are the same.
pub fn same_conditions(a: &Vec<ContentCondition>, b: &Vec<ContentCondition>) -> (r: bool)
    ensures
        r == (a.deep_view() == b.deep_view()),
{
    if a.len() != b.len() {
        assert(a.deep_view().len() != b.deep_view().len());
        return false;
    }
    let mut i: usize = 0;
    while i < a.len()
        invariant
            i <= a.len(),
            a.len() == b.len(),
            forall|k: int| 0 <= k < i ==> a[k]@ == b[k]@,
        decreases a.len() - i,
    {
        let same = a[i].property == b[i].property && a[i].operator == b[i].operator && a[i].value
            == b[i].value;
        if !same {
            assert(a.deep_view()[i as int] != b.deep_view()[i as int]);
            return false;
        }
        i += 1;
    }
    assert(a.deep_view() =~= b.deep_view());
    true
}

impl Clone for Rule {
    fn clone(&self) -> (r: Self)
        ensures
            r@ == self@,
    {
        let content_conditions = match &self.content_conditions {
            Some(c) => Some(clone_conditions(c)),
            None => None,
        };
        let function = match &self.function {
            Some(f) => Some(f.clone()),
            None => None,
        };
        let processors = match &self.processors {
            Some(p) => Some(p.clone()),
            None => None,
        };
        Rule {
            title: self.title.clone(),
            pattern: clone_text(&self.pattern),
            patterns: clone_optional_texts(&self.patterns),
            content_conditions,
            match_all_conditions: self.match_all_conditions,
            directory: clone_text(&self.directory),
            function,
            processors,
            root: self.root,
            copy: self.copy,
            old_pattern: self.old_pattern.clone(),
            new_pattern: self.new_pattern.clone(),
        }
    }
}

/// A rule as [`Rule::make_patterns`] leaves it.
pub open spec fn with_patterns(rule: RuleView) -> RuleView {
    match rule.pattern {
        Some(p) => RuleView {
            old_pattern: match_pattern(p),
            new_pattern: extraction_template(p),
            ..rule
        },
        None => rule,
    }
}

/// The rule that stands for one pattern of a rule with several.
pub open spec fn with_pattern(rule: RuleView, pattern: Seq<char>) -> RuleView {
    RuleView { pattern: Some(pattern), patterns: None, ..rule }
}

/// The rules that a rule expands to: itself where it lists no patterns, and
/// else one rule for each pattern, in their order.
pub open spec fn expanded(rule: RuleView) -> Seq<RuleView> {
    match rule.patterns {
        None => seq![rule],
        Some(patterns) => patterns.map_values(|p: Seq<char>| with_pattern(rule, p)),
    }
}

/// The expansions of all rules of a list, one after another.
pub open spec fn expanded_all(rules: Seq<RuleView>) -> Seq<RuleView>
    decreases rules.len(),
{
    if rules.len() == 0 {
        Seq::empty()
    } else {
        expanded_all(rules.drop_last()) + expanded(rules.last())
    }
}

/// A rule of the list for root `index`: it takes that root unless it names
/// one of its own.
pub open spec fn rooted(rule: RuleView, index: usize) -> RuleView {
    if rule.root == 0 {
        RuleView { root: index, ..rule }
    } else {
        rule
    }
}

/// The expansions of the rules of the lists `lists[0]`, `lists[1]`, ..., each
/// rule under the root of its list.
pub open spec fn expanded_by_root(lists: Seq<Seq<RuleView>>) -> Seq<RuleView>
    decreases lists.len(),
{
    if lists.len() == 0 {
        Seq::empty()
    } else {
        let index = (lists.len() - 1) as usize;
        expanded_by_root(lists.drop_last()) + expanded_all(
            lists.last().map_values(|r: RuleView| rooted(r, index)),
        )
    }
}

/// `rules` without those that repeat the rule just before them.
pub open spec fn deduped(rules: Seq<RuleView>) -> Seq<RuleView>
    decreases rules.len(),
{
    if rules.len() <= 1 {
        rules
    } else {
        let front = deduped(rules.drop_last());
        if front.last() == rules.last() {
            front
        } else {
            front.push(rules.last())
        }
    }
}

/// The merger of a processor that names none: a single space.
pub fn default_merger() -> (r: Option<String>)
    ensures
        r.deep_view() == Some(seq![' ']),
{
    let space: Vec<char> = vec![' '];
    assert(space@ =~= seq![' ']);
    Some(crate::text::string_of(&space))
}

/// Whether all conditions of a rule must hold where it does not say: they must.
pub fn default_match_all() -> (r: bool)
    ensures
        r,
{
    true
}

impl Rule {
    /// Compiles the pattern of the rule: `old_pattern` becomes the pattern to
    /// match and `new_pattern` the template for the new name. A rule without
    /// a pattern is left as it is.
    pub fn make_patterns(&mut self) -> (r: Result<(), Error>)
        ensures
            r is Ok,
            final(self)@ == with_patterns(old(self)@),
    {
        if let Some(pattern) = &self.pattern {
            let (matching, template) = compile(pattern.as_str());
            self.old_pattern = matching;
            self.new_pattern = template;
        }
        Ok(())
    }

    /// Whether two rules are the same.
    pub fn same_as(&self, other: &Rule) -> (r: bool)
        ensures
            r == (self@ == other@),
    {
        let same_conditions = match (&self.content_conditions, &other.content_conditions) {
            (Some(a), Some(b)) => same_conditions(a, b),
            (None, None) => true,
            _ => false,
        };
        let same_function = match (&self.function, &other.function) {
            (Some(a), Some(b)) => a.same_as(b),
            (None, None) => true,
            _ => false,
        };
        let same_processors = match (&self.processors, &other.processors) {
            (Some(a), Some(b)) => a.same_as(b),
            (None, None) => true,
            _ => false,
        };
        self.title == other.title && same_text(&self.pattern, &other.pattern)
            && same_optional_texts(&self.patterns, &other.patterns) && same_conditions
            && self.match_all_conditions == other.match_all_conditions && same_text(
            &self.directory,
            &other.directory,
        ) && same_function && same_processors && self.root == other.root && self.copy
            == other.copy && self.old_pattern == other.old_pattern && self.new_pattern
            == other.new_pattern
    }
}

/// Gives `rule` the pattern `pattern` and returns the rule that stands for
/// that pattern alone.
pub fn extract_rule_with_pattern(rule: &mut Rule, pattern: &str) -> (derived: Rule)
    ensures
        final(rule)@ == (RuleView { pattern: Some(pattern@), ..old(rule)@ }),
        derived@ == with_pattern(old(rule)@, pattern@),
{
    rule.pattern = Some(String::from_str(pattern));
    let mut derived_rule = rule.clone();
    derived_rule.patterns = None;
    derived_rule
}

/// One rule for each of `patterns`, each like `rule` but for its pattern.
/// `rule` is left with the last of the patterns.
pub fn process_patterns(rule: &mut Rule, patterns: &Vec<String>) -> (r: RulesList)
    ensures
        r.deep_view() == patterns.deep_view().map_values(
            |p: Seq<char>| with_pattern(old(rule)@, p),
        ),
        patterns.len() == 0 ==> final(rule)@ == old(rule)@,
        patterns.len() > 0 ==> final(rule)@ == (RuleView {
            pattern: Some(patterns[patterns.len() - 1]@),
            ..old(rule)@
        }),
{
    let mut r: RulesList = Vec::new();
    let mut i: usize = 0;
    while i < patterns.len()
        invariant
            i <= patterns.len(),
            r.len() == i,
            forall|k: int| 0 <= k < i ==> r[k]@ == with_pattern(old(rule)@, patterns[k]@),
            i == 0 ==> rule@ == old(rule)@,
            i > 0 ==> rule@ == (RuleView { pattern: Some(patterns[i - 1]@), ..old(rule)@ }),
        decreases patterns.len() - i,
    {
        let derived = extract_rule_with_pattern(rule, patterns[i].as_str());
        r.push(derived);
        i += 1;
    }
    assert(r.deep_view() =~= patterns.deep_view().map_values(
        |p: Seq<char>| with_pattern(old(rule)@, p),
    ));
    r
}

/// The rules that `rule` expands to. The rule itself is left as it is.
pub fn map_patterns_to_rules(rule: &mut Rule) -> (r: Result<RulesList, Error>)
    ensures
        final(rule)@ == old(rule)@,
        r is Ok,
        r->Ok_0.deep_view() == expanded(old(rule)@),
{
    match &rule.patterns {
        None => {
            let mut one: RulesList = Vec::new();
            one.push(rule.clone());
            assert(one.deep_view() =~= seq![rule@]);
            Ok(one)
        },
        Some(patterns) => {
            let mut copy = rule.clone();
            let list = process_patterns(&mut copy, patterns);
            Ok(list)
        },
    }
}

/// Appends to `new_rules` the expansions of all of `rules`, in their order.
pub fn process_and_append_rule(rules: &mut RulesList, new_rules: &mut Vec<Rule>) -> (r: Result<
    (),
    Error,
>)
    ensures
        r is Ok,
        final(rules).deep_view() == old(rules).deep_view(),
        final(new_rules).deep_view() == old(new_rules).deep_view() + expanded_all(
            old(rules).deep_view(),
        ),
{
    let mut i: usize = 0;
    proof {
        assert(rules.deep_view().take(0) =~= Seq::<RuleView>::empty());
        assert(new_rules.deep_view() =~= old(new_rules).deep_view() + Seq::<RuleView>::empty());
    }
    while i < rules.len()
        invariant
            i <= rules.len(),
            rules.deep_view() == old(rules).deep_view(),
            new_rules.deep_view() == old(new_rules).deep_view() + expanded_all(
                old(rules).deep_view().take(i as int),
            ),
        decreases rules.len() - i,
    {
        let ghost before = new_rules.deep_view();
        let mut current = rules[i].clone();
        let mut list = match map_patterns_to_rules(&mut current) {
            Ok(list) => list,
            Err(e) => {
                return Err(e);
            },
        };
        let ghost added = list.deep_view();
        append_rules(new_rules, &mut list);
        proof {
            let all = old(rules).deep_view();
            assert(all.take(i + 1).drop_last() =~= all.take(i as int));
            assert(all.take(i + 1).last() == rules[i as int]@);
            assert(new_rules.deep_view() =~= old(new_rules).deep_view() + expanded_all(
                all.take(i + 1),
            ));
        }
        i += 1;
    }
    proof {
        assert(old(rules).deep_view().take(rules.len() as int) =~= old(rules).deep_view());
    }
    Ok(())
}

/// Moves the rules of `tail` to the end of `rules`.
pub fn append_rules(rules: &mut Vec<Rule>, tail: &mut Vec<Rule>)
    ensures
        final(rules).deep_view() == old(rules).deep_view() + old(tail).deep_view(),
        final(tail)@.len() == 0,
{
    rules.append(tail);
    assert(rules.deep_view() =~= old(rules).deep_view() + old(tail).deep_view());
}

/// Appends to `result_mappings` the expansions of all of `mappings`.
pub fn process_rules(mappings: &mut RulesList, result_mappings: &mut Vec<Rule>) -> (r: Result<
    (),
    Error,
>)
    ensures
        r is Ok,
        final(mappings).deep_view() == old(mappings).deep_view(),
        final(result_mappings).deep_view() == old(result_mappings).deep_view() + expanded_all(
            old(mappings).deep_view(),
        ),
{
    process_and_append_rule(mappings, result_mappings)
}

/// The views of a list of lists of rules.
pub open spec fn lists_view(lists: Seq<RulesList>) -> Seq<Seq<RuleView>> {
    lists.map_values(|l: RulesList| l.deep_view())
}

/// Appends to `new_rules` the expansions of the rules of all lists, where the
/// list at position `i` holds the rules for root `i`: a rule whose root is 0
/// takes the position of its list for its root.
pub fn process_and_append_rules(roots: Vec<RulesList>, new_rules: &mut Vec<Rule>) -> (r: Result<
    (),
    Error,
>)
    ensures
        r is Ok,
        final(new_rules).deep_view() == old(new_rules).deep_view() + expanded_by_root(
            lists_view(roots@),
        ),
{
    let ghost lists = lists_view(roots@);
    let mut idx: usize = 0;
    proof {
        assert(lists.take(0) =~= Seq::<Seq<RuleView>>::empty());
        assert(new_rules.deep_view() =~= old(new_rules).deep_view() + Seq::<RuleView>::empty());
    }
    while idx < roots.len()
        invariant
            idx <= roots.len(),
            lists == lists_view(roots@),
            new_rules.deep_view() == old(new_rules).deep_view() + expanded_by_root(
                lists.take(idx as int),
            ),
        decreases roots.len() - idx,
    {
        let root = &roots[idx];
        let ghost start = new_rules.deep_view();
        let ghost marked = root.deep_view().map_values(|r: RuleView| rooted(r, idx));
        let mut j: usize = 0;
        proof {
            assert(marked.take(0) =~= Seq::<RuleView>::empty());
            assert(new_rules.deep_view() =~= start + Seq::<RuleView>::empty());
        }
        while j < root.len()
            invariant
                j <= root.len(),
                marked == root.deep_view().map_values(|r: RuleView| rooted(r, idx)),
                new_rules.deep_view() == start + expanded_all(marked.take(j as int)),
            decreases root.len() - j,
        {
            let mut map = root[j].clone();
            if map.root == 0 {
                map.root = idx;
            }
            let mut single: RulesList = Vec::new();
            single.push(map);
            proof {
                assert(single.deep_view() =~= seq![marked[j as int]]);
                assert(single.deep_view().drop_last() =~= Seq::<RuleView>::empty());
                assert(expanded_all(Seq::<RuleView>::empty()) =~= Seq::<RuleView>::empty());
                assert(single.deep_view().last() == marked[j as int]);
                assert(expanded_all(single.deep_view()) =~= expanded(marked[j as int]));
            }
            match process_and_append_rule(&mut single, new_rules) {
                Ok(()) => {},
                Err(e) => {
                    return Err(e);
                },
            }
            proof {
                assert(marked.take(j + 1).drop_last() =~= marked.take(j as int));
                assert(marked.take(j + 1).last() == marked[j as int]);
                assert(new_rules.deep_view() =~= start + expanded_all(marked.take(j + 1)));
            }
            j += 1;
        }
        proof {
            assert(marked.take(root.len() as int) =~= marked);
            assert(lists.take(idx + 1).drop_last() =~= lists.take(idx as int));
            assert(lists.take(idx + 1).last() == root.deep_view());
            assert(new_rules.deep_view() =~= old(new_rules).deep_view() + expanded_by_root(
                lists.take(idx + 1),
            ));
        }
        idx += 1;
    }
    proof {
        assert(lists.take(roots.len() as int) =~= lists);
    }
    Ok(())
}

/// Removes from `rules` every rule that repeats the rule just before it.
pub fn dedup_rules(rules: Vec<Rule>) -> (r: Vec<Rule>)
    ensures
        r.deep_view() == deduped(rules.deep_view()),
{
    let mut r: Vec<Rule> = Vec::new();
    let mut i: usize = 0;
    proof {
        assert(rules.deep_view().take(0) =~= Seq::<RuleView>::empty());
        assert(r.deep_view() =~= Seq::<RuleView>::empty());
    }
    while i < rules.len()
        invariant
            i <= rules.len(),
            r.deep_view() == deduped(rules.deep_view().take(i as int)),
            i > 0 ==> r.len() > 0,
        decreases rules.len() - i,
    {
        let ghost all = rules.deep_view();
        proof {
            assert(all.take(i + 1).drop_last() =~= all.take(i as int));
            assert(all.take(i + 1).last() == rules[i as int]@);
        }
        let repeats = r.len() > 0 && r[r.len() - 1].same_as(&rules[i]);
        if !repeats {
            let ghost before = r.deep_view();
            r.push(rules[i].clone());
            proof {
                assert(r.deep_view() =~= before.push(rules[i as int]@));
                if i == 0 {
                    assert(all.take(1) =~= seq![rules[0]@]);
                }
            }
        } else {
            proof {
                assert(r.deep_view().last() == r[r.len() - 1]@);
            }
        }
        i += 1;
    }
    proof {
        assert(rules.deep_view().take(rules.len() as int) =~= rules.deep_view());
    }
    r
}

/// The list of rules that a configuration's rules come to: every rule is
/// expanded into one rule for each of its patterns, rules listed by root take
/// the root of their list, and a rule that repeats the one before it is dropped.
pub fn parse_rules(rules: Rules) -> (r: Result<RulesList, Error>)
    ensures
        r is Ok,
        r->Ok_0.deep_view() == deduped(
            match rules {
                Rules::SingleRule(list) => expanded_all(list.deep_view()),
                Rules::RootRules(lists) => expanded_by_root(lists_view(lists@)),
            },
        ),
{
    let mut result: Vec<Rule> = Vec::new();
    proof {
        assert(result.deep_view() =~= Seq::<RuleView>::empty());
    }
    match rules {
        Rules::SingleRule(mut list) => {
            match process_rules(&mut list, &mut result) {
                Ok(()) => {},
                Err(e) => {
                    return Err(e);
                },
            }
            assert(result.deep_view() =~= expanded_all(list.deep_view()));
        },
        Rules::RootRules(lists) => {
            match process_and_append_rules(lists, &mut result) {
                Ok(()) => {},
                Err(e) => {
                    return Err(e);
                },
            }
            assert(result.deep_view() =~= expanded_by_root(lists_view(lists@)));
        },
    }
    Ok(dedup_rules(result))
}

/// The position of the first rule from `from` on whose pattern to match is
/// no regular expression.
pub open spec fn first_broken(rules: Seq<RuleView>, from: int) -> Option<int>
    decreases rules.len() - from,
{
    if from < 0 || from >= rules.len() {
        None
    } else if !regex_compiles(rules[from].old_pattern) {
        Some(from)
    } else {
        first_broken(rules, from + 1)
    }
}

/// The error of a rule whose pattern to match is no regular expression: it
/// names the rule by its title, and the pattern.
pub open spec fn broken_rule(rule: RuleView) -> ErrorView {
    ErrorView::Generic {
        message: "Failed to make patterns for rule '"@ + rule.title + "': Invalid pattern: "@
            + rule.old_pattern,
    }
}

/// What preparing a list of rules comes to: the rules with their patterns
/// compiled, or the error of the first rule that is broken.
pub open spec fn prepared(rules: Seq<RuleView>) -> Result<Seq<RuleView>, ErrorView> {
    let compiled = rules.map_values(|rule: RuleView| with_patterns(rule));
    match first_broken(compiled, 0) {
        Some(i) => Err(broken_rule(compiled[i])),
        None => Ok(compiled),
    }
}

/// Where no rule from `from` on is broken, the rule at `i` is not.
pub proof fn lemma_none_broken(rules: Seq<RuleView>, from: int, i: int)
    requires
        0 <= from <= i < rules.len(),
        first_broken(rules, from) is None,
    ensures
        regex_compiles(rules[i].old_pattern),
    decreases i - from,
{
    if from < i {
        lemma_none_broken(rules, from + 1, i);
    }
}

/// In a list that was prepared, every pattern to match is a regular
/// expression.
pub proof fn lemma_prepared_rules_compile(rules: Seq<RuleView>)
    requires
        prepared(rules) is Ok,
    ensures
        forall|i: int|
            0 <= i < rules.len() ==> regex_compiles(
                (#[trigger] prepared(rules)->Ok_0[i]).old_pattern,
            ),
{
    let compiled = rules.map_values(|rule: RuleView| with_patterns(rule));
    assert forall|i: int| 0 <= i < rules.len() implies regex_compiles(
        (#[trigger] prepared(rules)->Ok_0[i]).old_pattern,
    ) by {
        lemma_none_broken(compiled, 0, i);
    }
}

/// Compiles the pattern of every rule of the list, and sees that each
/// pattern to match is a regular expression. The first rule whose pattern is
/// none fails the whole list, which is then left as it was.
pub fn prepare_rules(rules: &mut RulesList) -> (r: Result<(), Error>)
    ensures
        match prepared(old(rules).deep_view()) {
            Ok(list) => r is Ok && final(rules).deep_view() == list,
            Err(e) => r is Err && r->Err_0@ == e && final(rules).deep_view() == old(
                rules,
            ).deep_view(),
        },
{
    let ghost all = old(rules).deep_view().map_values(|rule: RuleView| with_patterns(rule));
    let mut compiled: Vec<Rule> = Vec::new();
    let mut i: usize = 0;
    while i < rules.len()
        invariant
            i <= rules.len(),
            *rules == *old(rules),
            all == old(rules).deep_view().map_values(|rule: RuleView| with_patterns(rule)),
            compiled.len() == i,
            forall|k: int| 0 <= k < i ==> compiled[k]@ == all[k],
            first_broken(all, 0) == first_broken(all, i as int),
        decreases rules.len() - i,
    {
        let mut rule = rules[i].clone();
        match rule.make_patterns() {
            Ok(()) => {},
            Err(e) => {
                return Err(e);
            },
        }
        proof {
            assert(old(rules).deep_view()[i as int] == rules[i as int]@);
            assert(rule@ == all[i as int]);
        }
        if check_pattern(rule.old_pattern.as_str()).is_err() {
            let message = String::from_str("Failed to make patterns for rule '").concat(
                rule.title.as_str(),
            ).concat("': Invalid pattern: ").concat(rule.old_pattern.as_str());
            return Err(Error::Generic { message });
        }
        compiled.push(rule);
        i += 1;
    }
    assert(compiled.deep_view() =~= all);
    *rules = compiled;
    Ok(())
}

} // verus!
