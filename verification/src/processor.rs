//! The file being sorted: where it is, and where it is to go.
//!
//! A directory may name a part of the file name: the marker `<start:length>`
//! stands for the `length` characters of the name that begin at position
//! `start`, counted from 0.

use vstd::prelude::*;
use vstd::string::*;
use crate::dates::{dated_name, process_date_on, today};
use crate::errors::{bad_pattern, error_matches, Error, ErrorView};
use crate::numbers::{decimal_text, parse_usize, push_decimal, usize_of_text};
use crate::paths::{file_name, file_name_of, full_path, joined};
use crate::pattern::{find_marker, first_marker, has_marker, lemma_first_marker_unique};
use crate::regex_engine::{
    check_pattern, regex_compiles, regex_replaced, regex_whole_match, replace_first, whole_match,
};
use crate::rules::{ConfigProcessor, ConfigProcessorView, Rule};
use crate::text::{
    append_chars, chars_of, find_from, find_sub, lemma_find_sub_first, slice_of, string_of,
};

verus! {

/// A file on its way: the path it has and the path it is to have.
#[derive(Debug)]
pub struct Processor {
    source: String,
    target: String,
}

/// Builds a [`Processor`] step by step.
#[derive(Debug)]
pub struct ProcessorBuilder {
    source: String,
    target: String,
}

impl Clone for Processor {
    fn clone(&self) -> (r: Self)
        ensures
            r@ == self@,
    {
        Processor { source: self.source.clone(), target: self.target.clone() }
    }
}

impl Clone for ProcessorBuilder {
    fn clone(&self) -> (r: Self)
        ensures
            r@ == self@,
    {
        ProcessorBuilder { source: self.source.clone(), target: self.target.clone() }
    }
}

/// The numbers between the colons of `text` from position `from` on, in
/// their order; what stands between two colons and is no number is passed
/// over.
pub open spec fn values_from(text: Seq<char>, from: int) -> Seq<usize>
    decreases text.len() - from,
{
    if from < 0 || from > text.len() {
        Seq::empty()
    } else {
        match find_sub(text, seq![':'], from) {
            None => numbers_in(text.subrange(from, text.len() as int)),
            Some(colon) => if from <= colon < text.len() {
                numbers_in(text.subrange(from, colon)) + values_from(text, colon + 1)
            } else {
                Seq::empty()
            },
        }
    }
}

/// The number that `part` spells, as a list of one, or the empty list.
pub open spec fn numbers_in(part: Seq<char>) -> Seq<usize> {
    match usize_of_text(part) {
        Some(n) => seq![n],
        None => Seq::empty(),
    }
}

/// The numbers that the text of a marker names.
pub open spec fn group_values(text: Seq<char>) -> Seq<usize> {
    values_from(text, 0)
}

/// The error of a path without a file name.
pub open spec fn no_file_name(path: Seq<char>) -> ErrorView {
    ErrorView::PathOperation { path, operation: "get filename"@ }
}

/// The part of the file name of `source` that `range` names: `range[1]`
/// characters from position `range[0]` on.
pub open spec fn group_substring(source: Seq<char>, range: Seq<usize>) -> Result<
    Seq<char>,
    ErrorView,
> {
    if range.len() < 2 {
        Err(ErrorView::Generic { message: "Invalid range format: expected [start, length]"@ })
    } else {
        match file_name_of(source) {
            None => Err(no_file_name(source)),
            Some(name) => {
                let start = range[0] as int;
                let end = range[0] + range[1];
                if start >= name.len() || end > name.len() {
                    Err(
                        ErrorView::Generic {
                            message: "Range ["@ + decimal_text(start as nat) + ", "@
                                + decimal_text(end as nat)
                                + "] is out of bounds for filename of length "@ + decimal_text(
                                name.len(),
                            ),
                        },
                    )
                } else {
                    Ok(name.subrange(start, end))
                }
            },
        }
    }
}

/// The directory `dir` with its first marker replaced by the part of the
/// file name of `source` that the marker names. A directory without a marker
/// stays as it is.
pub open spec fn marker_resolved(dir: Seq<char>, source: Seq<char>) -> Result<
    Seq<char>,
    ErrorView,
> {
    if !has_marker(dir) {
        Ok(dir)
    } else {
        let m = first_marker(dir);
        match group_substring(source, group_values(dir.subrange(m.0 + 1, m.1))) {
            Err(e) => Err(e),
            Ok(part) => Ok(dir.take(m.0) + part + dir.skip(m.1 + 1)),
        }
    }
}

/// What applying the regular expression `pattern` to the file name of
/// `source` gives: the text of its first match.
pub open spec fn parsed_name(source: Seq<char>, pattern: Seq<char>) -> Result<
    Seq<char>,
    ErrorView,
> {
    match file_name_of(source) {
        None => Err(no_file_name(source)),
        Some(name) => matched_part(name, pattern),
    }
}

/// The part of `name` that the first match of `pattern` covers.
pub open spec fn matched_part(name: Seq<char>, pattern: Seq<char>) -> Result<
    Seq<char>,
    ErrorView,
> {
    if !regex_compiles(pattern) {
        Err(bad_pattern(pattern))
    } else {
        match regex_whole_match(pattern, name) {
            Some(part) => Ok(part),
            None => Err(ErrorView::NoMatch { pattern, value: name }),
        }
    }
}

/// What the pattern processor makes of `name`: the first match of `pattern`
/// replaced, where a replacement is given.
pub open spec fn replaced_name(
    name: Seq<char>,
    pattern: Seq<char>,
    replacement: Option<Seq<char>>,
) -> Result<Seq<char>, ErrorView> {
    if !regex_compiles(pattern) {
        Err(bad_pattern(pattern))
    } else {
        match replacement {
            Some(text) => Ok(regex_replaced(pattern, name, text)),
            None => Ok(name),
        }
    }
}

/// What the processors of a rule make of `name` when today is day `day`:
/// first the date, where a date format and a splitter are given, then the
/// replacement, where a pattern is given.
pub open spec fn processed_name(name: Seq<char>, p: ConfigProcessorView, day: int) -> Result<
    Seq<char>,
    ErrorView,
> {
    let dated = if p.date_format is Some && p.splitter is Some {
        dated_name(name, p.date_format->0, p.splitter->0, p.merger, day)
    } else {
        Ok(name)
    };
    match dated {
        Err(e) => Err(e),
        Ok(with_date) => match p.pattern {
            Some(pattern) => replaced_name(with_date, pattern, p.replacement),
            None => Ok(with_date),
        },
    }
}

/// Whether the outcome of the processors depends on the day on which they run.
pub open spec fn depends_on_day(p: ConfigProcessorView) -> bool {
    p.date_format is Some && p.splitter is Some && p.splitter->0.contains('%')
}

/// Whether a result is the expected outcome, an error
/// being taken for what it says apart from an outside crate's wording.
pub open spec fn text_result_is(r: Result<String, Error>, expected: Result<Seq<char>, ErrorView>) -> bool {
    match expected {
        Ok(text) => r is Ok && r->Ok_0@ == text,
        Err(e) => r is Err && error_matches(r->Err_0@, e),
    }
}

/// Whether a name was rewritten as expected: on success it is the
/// new name, and on an error it is left as it was.
pub open spec fn rewrite_is(
    r: Result<(), Error>,
    before: Seq<char>,
    after: Seq<char>,
    expected: Result<Seq<char>, ErrorView>,
) -> bool {
    match expected {
        Ok(text) => r is Ok && after == text,
        Err(e) => r is Err && error_matches(r->Err_0@, e) && after == before,
    }
}

/// The numbers that the text of a marker names: its parts between colons
/// that read as numbers.
pub fn extract_group_values(group: &str) -> (r: Vec<usize>)
    ensures
        r@ == group_values(group@),
{
    let text = chars_of(group);
    let colon: Vec<char> = vec![':'];
    assert(colon@ =~= seq![':']);
    let mut values: Vec<usize> = Vec::new();
    let mut from: usize = 0;
    proof {
        assert(values@ + values_from(text@, 0) =~= values_from(text@, 0));
    }
    loop
        invariant
            from <= text.len(),
            text@ == group@,
            colon@ == seq![':'],
            group_values(text@) == values@ + values_from(text@, from as int),
        decreases text.len() - from,
    {
        let found = find_from(&text, &colon, from);
        proof {
            lemma_find_sub_first(text@, colon@, from as int);
        }
        let to: usize = match found {
            Some(i) => i,
            None => text.len(),
        };
        let part = slice_of(&text, from, to);
        let ghost before = values@;
        match parse_usize(string_of(&part).as_str()) {
            Some(n) => {
                values.push(n);
            },
            None => {},
        }
        assert(values@ =~= before + numbers_in(part@));
        match found {
            None => {
                assert(values@ =~= before + values_from(text@, from as int));
                return values;
            },
            Some(i) => {
                assert(before + values_from(text@, from as int) =~= values@ + values_from(
                    text@,
                    i + 1,
                ));
                from = i + 1;
            },
        }
    }
}

/// The part of the file name of `source` that `range` names.
pub fn group_part(source: &str, range: &Vec<usize>) -> (r: Result<String, Error>)
    ensures
        text_result_is(r, group_substring(source@, range@)),
{
    if range.len() < 2 {
        return Err(crate::errors::generic_error("Invalid range format: expected [start, length]"));
    }
    let name = match file_name(source) {
        Some(name) => chars_of(name.as_str()),
        None => {
            return Err(crate::errors::path_operation_error(String::from_str(source), "get filename"));
        },
    };
    let start: u128 = range[0] as u128;
    let end: u128 = range[0] as u128 + range[1] as u128;
    let length: u128 = name.len() as u128;
    if start >= length || end > length {
        let mut message = chars_of("Range [");
        push_decimal(start, &mut message);
        append_chars(&mut message, &chars_of(", "));
        push_decimal(end, &mut message);
        append_chars(&mut message, &chars_of("] is out of bounds for filename of length "));
        push_decimal(length, &mut message);
        return Err(Error::Generic { message: string_of(&message) });
    }
    let part = slice_of(&name, range[0], range[0] + range[1]);
    Ok(string_of(&part))
}

/// Replaces the first marker of the directory `dir` by the part of the file
/// name of `source` that it names.
pub fn resolve_directory(dir: &str, source: &str) -> (r: Result<String, Error>)
    ensures
        text_result_is(r, marker_resolved(dir@, source@)),
{
    let text = chars_of(dir);
    let (open, close) = match find_marker(&text) {
        Some(m) => m,
        None => {
            return Ok(String::from_str(dir));
        },
    };
    proof {
        lemma_first_marker_unique(text@, open as int, close as int);
    }
    let group = slice_of(&text, open + 1, close);
    let values = extract_group_values(string_of(&group).as_str());
    let part = match group_part(source, &values) {
        Ok(part) => part,
        Err(e) => {
            return Err(e);
        },
    };
    let mut resolved = slice_of(&text, 0, open);
    append_chars(&mut resolved, &chars_of(part.as_str()));
    let rest = slice_of(&text, close + 1, text.len());
    append_chars(&mut resolved, &rest);
    proof {
        assert(text@.subrange(0, open as int) =~= text@.take(open as int));
        assert(text@.subrange(close + 1, text.len() as int) =~= text@.skip(close + 1));
    }
    Ok(string_of(&resolved))
}

/// Applies the regular expression `pattern` to `name` and returns the text
/// of its first match.
pub fn parse_file(name: &str, pattern: &str) -> (r: Result<String, Error>)
    ensures
        text_result_is(r, matched_part(name@, pattern@)),
{
    match whole_match(pattern, name) {
        Err(detail) => Err(Error::PatternMatching { detail, pattern: String::from_str(pattern) }),
        Ok(None) => Err(crate::errors::no_match_error(pattern, name)),
        Ok(Some(part)) => Ok(part),
    }
}

/// Replaces the first match of the regular expression `pattern` in
/// `destination` by `replacement`. Without a replacement the name stays as it
/// is, but the pattern must still be a regular expression.
pub fn process_pattern(destination: &mut String, pattern: &str, replacement: &Option<String>) -> (r:
    Result<(), Error>)
    ensures
        rewrite_is(
            r,
            old(destination)@,
            final(destination)@,
            replaced_name(old(destination)@, pattern@, replacement.deep_view()),
        ),
{
    match replacement {
        Some(text) => match replace_first(pattern, destination.as_str(), text.as_str()) {
            Ok(replaced) => {
                *destination = replaced;
                Ok(())
            },
            Err(detail) => Err(
                Error::PatternMatching { detail, pattern: String::from_str(pattern) },
            ),
        },
        None => match check_pattern(pattern) {
            Ok(()) => Ok(()),
            Err(detail) => Err(
                Error::PatternMatching { detail, pattern: String::from_str(pattern) },
            ),
        },
    }
}

/// Applies the processors of a rule to a file name, taking `day` for today:
/// the date processor where the rule gives a date format and a splitter,
/// then the pattern processor where it gives a pattern. On an error the name
/// is left as it was.
pub fn apply_processors_on(
    processed_value: &mut String,
    config_processor: &ConfigProcessor,
    day: i32,
) -> (r: Result<(), Error>)
    ensures
        rewrite_is(
            r,
            old(processed_value)@,
            final(processed_value)@,
            processed_name(old(processed_value)@, config_processor@, day as int),
        ),
{
    let mut name = processed_value.clone();
    if let (Some(date_format), Some(splitter)) = (
        &config_processor.date_format,
        &config_processor.splitter,
    ) {
        match process_date_on(
            &mut name,
            date_format.as_str(),
            splitter.as_str(),
            &config_processor.merger,
            day,
        ) {
            Ok(()) => {},
            Err(e) => {
                return Err(e);
            },
        }
    }
    if let Some(pattern) = &config_processor.pattern {
        match process_pattern(&mut name, pattern.as_str(), &config_processor.replacement) {
            Ok(()) => {},
            Err(e) => {
                return Err(e);
            },
        }
    }
    *processed_value = name;
    Ok(())
}

/// Applies the processors of a rule to a file name. Where the rule's
/// splitter is a date format, the outcome is that of
/// [`apply_processors_on`] on the day of the call; otherwise it is the same
/// on every day.
pub fn apply_processors(processed_value: &mut String, config_processor: &ConfigProcessor) -> (r:
    Result<(), Error>)
    ensures
        exists|day: int|
            i32::MIN <= day <= i32::MAX && rewrite_is(
                r,
                old(processed_value)@,
                final(processed_value)@,
                #[trigger] processed_name(old(processed_value)@, config_processor@, day),
            ),
        !depends_on_day(config_processor@) ==> rewrite_is(
            r,
            old(processed_value)@,
            final(processed_value)@,
            processed_name(old(processed_value)@, config_processor@, 0),
        ),
{
    let day = today();
    let r = apply_processors_on(processed_value, config_processor, day);
    proof {
        let name = old(processed_value)@;
        assert(rewrite_is(
            r,
            name,
            processed_value@,
            processed_name(name, config_processor@, day as int),
        ));
        if !depends_on_day(config_processor@) {
            lemma_day_is_idle(name, config_processor@, day as int, 0);
        }
    }
    r
}

/// Processors whose splitter is no date format do the same on every day.
pub proof fn lemma_day_is_idle(name: Seq<char>, p: ConfigProcessorView, day: int, other: int)
    requires
        !depends_on_day(p),
    ensures
        processed_name(name, p, day) == processed_name(name, p, other),
{
}

/// The new name of the file at `source`: the part of its file name that the
/// regular expression `pattern` matches, rewritten by the processors.
pub open spec fn destination_name(
    source: Seq<char>,
    pattern: Seq<char>,
    processors: Option<ConfigProcessorView>,
    day: int,
) -> Result<Seq<char>, ErrorView> {
    match parsed_name(source, pattern) {
        Err(e) => Err(e),
        Ok(name) => match processors {
            Some(p) => processed_name(name, p, day),
            None => Ok(name),
        },
    }
}

/// The path under `dir` that the file at `source` is to have.
pub open spec fn destination_path(
    source: Seq<char>,
    dir: Seq<char>,
    pattern: Seq<char>,
    processors: Option<ConfigProcessorView>,
    day: int,
) -> Result<Seq<char>, ErrorView> {
    match destination_name(source, pattern, processors, day) {
        Err(e) => Err(e),
        Ok(name) => Ok(joined(dir, name)),
    }
}

/// The directory under which a destination is made: `root` where one is
/// given, and else the target.
pub open spec fn base_dir(root: Option<&str>, target: Seq<char>) -> Seq<char> {
    match root {
        Some(dir) => dir@,
        None => target,
    }
}

/// Whether the processors of a rule, if it has any, depend on the day.
pub open spec fn rule_depends_on_day(processors: Option<ConfigProcessorView>) -> bool {
    processors is Some && depends_on_day(processors->0)
}

/// Whether a pair of paths is `source` with the expected destination.
pub open spec fn pair_result_is(
    r: Result<(String, String), Error>,
    source: Seq<char>,
    expected: Result<Seq<char>, ErrorView>,
) -> bool {
    match expected {
        Ok(target) => r is Ok && r->Ok_0.0@ == source && r->Ok_0.1@ == target,
        Err(e) => r is Err && error_matches(r->Err_0@, e),
    }
}

/// The two paths of a [`Processor`], or of its builder, as sequences of
/// characters.
pub struct ProcessorView {
    pub source: Seq<char>,
    pub target: Seq<char>,
}

impl View for Processor {
    type V = ProcessorView;

    closed spec fn view(&self) -> ProcessorView {
        ProcessorView { source: self.source@, target: self.target@ }
    }
}

impl View for ProcessorBuilder {
    type V = ProcessorView;

    closed spec fn view(&self) -> ProcessorView {
        ProcessorView { source: self.source@, target: self.target@ }
    }
}

impl ProcessorBuilder {
    /// A builder for the file at `file`, with no target yet.
    pub fn new(file: &str) -> (r: ProcessorBuilder)
        ensures
            r@ == (ProcessorView { source: file@, target: Seq::empty() }),
    {
        ProcessorBuilder { source: String::from_str(file), target: String::new() }
    }

    /// Sets the source path.
    pub fn source(self, source: String) -> (r: ProcessorBuilder)
        ensures
            r@ == (ProcessorView { source: source@, ..self@ }),
    {
        ProcessorBuilder { source, target: self.target }
    }

    /// Sets the target path.
    pub fn target(self, target: String) -> (r: ProcessorBuilder)
        ensures
            r@ == (ProcessorView { target: target@, ..self@ }),
    {
        ProcessorBuilder { source: self.source, target }
    }

    /// The processor with the paths set so far.
    pub fn build(self) -> (r: Processor)
        ensures
            r@ == self@,
    {
        Processor { source: self.source, target: self.target }
    }
}

impl Processor {
    /// A builder for the file at `file`.
    pub fn builder(file: &str) -> (r: ProcessorBuilder)
        ensures
            r@ == (ProcessorView { source: file@, target: Seq::empty() }),
    {
        ProcessorBuilder::new(file)
    }

    /// The source path of the file.
    pub fn source(&self) -> (r: &String)
        ensures
            r@ == self@.source,
    {
        &self.source
    }

    /// The target path of the file.
    pub fn target(&self) -> (r: &String)
        ensures
            r@ == self@.target,
    {
        &self.target
    }

    /// Sets the target path.
    pub fn set_target(&mut self, target: String)
        ensures
            final(self)@ == (ProcessorView { target: target@, ..old(self)@ }),
    {
        self.target = target;
    }

    /// The file name of the source path.
    pub fn source_filename(&self) -> (r: Result<String, Error>)
        ensures
            match file_name_of(self@.source) {
                Some(name) => r is Ok && r->Ok_0@ == name,
                None => r is Err && r->Err_0@ == no_file_name(self@.source),
            },
    {
        match file_name(self.source.as_str()) {
            Some(name) => Ok(name),
            None => Err(crate::errors::path_operation_error(self.source.clone(), "get filename")),
        }
    }

    /// The file name of the target path.
    pub fn target_filename(&self) -> (r: Result<String, Error>)
        ensures
            match file_name_of(self@.target) {
                Some(name) => r is Ok && r->Ok_0@ == name,
                None => r is Err && r->Err_0@ == no_file_name(self@.target),
            },
    {
        match file_name(self.target.as_str()) {
            Some(name) => Ok(name),
            None => Err(crate::errors::path_operation_error(self.target.clone(), "get filename")),
        }
    }

    /// Whether the file gets a new name: whether the file names of target and
    /// source differ. It is an error for either path to have no file name;
    /// the target is looked at first.
    pub fn is_changed(&self) -> (r: Result<bool, Error>)
        ensures
            match (file_name_of(self@.target), file_name_of(self@.source)) {
                (Some(target), Some(source)) => r == Ok::<bool, Error>(target != source),
                (None, _) => r is Err && r->Err_0@ == no_file_name(self@.target),
                (Some(_), None) => r is Err && r->Err_0@ == no_file_name(self@.source),
            },
    {
        let target_filename = match self.target_filename() {
            Ok(name) => name,
            Err(e) => {
                return Err(e);
            },
        };
        let source_filename = match self.source_filename() {
            Ok(name) => name,
            Err(e) => {
                return Err(e);
            },
        };
        Ok(target_filename != source_filename)
    }

    /// The part of the source file name that `range` names: `range[1]`
    /// characters from position `range[0]` on.
    pub fn resolve_group_substring(&self, range: Vec<usize>) -> (r: Result<String, Error>)
        ensures
            text_result_is(r, group_substring(self@.source, range@)),
    {
        group_part(self.source.as_str(), &range)
    }

    /// The numbers that the text of a marker names; none where there is no marker.
    pub fn extract_group_values(&self, found_group: Option<&str>) -> (r: Vec<usize>)
        ensures
            r@ == match found_group {
                Some(group) => group_values(group@),
                None => Seq::<usize>::empty(),
            },
    {
        match found_group {
            Some(group) => extract_group_values(group),
            None => Vec::new(),
        }
    }

    /// Applies the regular expression `pattern` to the source file name and
    /// returns the text of its first match.
    pub fn parse_file(&self, pattern: &str) -> (r: Result<String, Error>)
        ensures
            text_result_is(r, parsed_name(self@.source, pattern@)),
    {
        let name = match self.source_filename() {
            Ok(name) => name,
            Err(e) => {
                return Err(e);
            },
        };
        parse_file(name.as_str(), pattern)
    }

    /// The directory `directory` with its marker replaced by the part of the
    /// source file name that it names.
    pub fn parse_dir(&self, directory: &str) -> (r: Result<String, Error>)
        ensures
            text_result_is(r, marker_resolved(directory@, self@.source)),
    {
        resolve_directory(directory, self.source.as_str())
    }

    /// Makes `folder` under `root`, with its marker resolved, the target of
    /// the file. On an error the target stays as it was.
    pub fn set_target_directory(&mut self, root: &str, folder: &str) -> (r: Result<(), Error>)
        ensures
            final(self)@.source == old(self)@.source,
            rewrite_is(
                r,
                old(self)@.target,
                final(self)@.target,
                marker_resolved(joined(root@, folder@), old(self)@.source),
            ),
    {
        let folder_full_path = full_path(root, folder);
        match self.parse_dir(folder_full_path.as_str()) {
            Ok(dir) => {
                self.target = dir;
                Ok(())
            },
            Err(e) => Err(e),
        }
    }

    /// The source path and the path that the file is to have, taking `day`
    /// for today: under `root`, or under the target where no root is given,
    /// the part of the file name that `new_name` matches, rewritten by the
    /// processors of `rule`.
    pub fn make_destination_on(&self, new_name: &str, root: Option<&str>, rule: &Rule, day: i32) -> (r:
        Result<(String, String), Error>)
        ensures
            pair_result_is(
                r,
                self@.source,
                destination_path(
                    self@.source,
                    base_dir(root, self@.target),
                    new_name@,
                    rule@.processors,
                    day as int,
                ),
            ),
    {
        let mut processed_value = match self.parse_file(new_name) {
            Ok(name) => name,
            Err(e) => {
                return Err(e);
            },
        };
        let dir = match root {
            Some(dir) => String::from_str(dir),
            None => self.target.clone(),
        };
        if let Some(config_processor) = &rule.processors {
            match apply_processors_on(&mut processed_value, config_processor, day) {
                Ok(()) => {},
                Err(e) => {
                    return Err(e);
                },
            }
        }
        let target_path = full_path(dir.as_str(), processed_value.as_str());
        Ok((self.source.clone(), target_path))
    }

    /// The source path and the path that the file is to have. Where the
    /// rule's splitter is a date format, the outcome is that of
    /// [`Processor::make_destination_on`] on the day of the call; otherwise
    /// it is the same on every day.
    pub fn make_destination(&self, new_name: &str, root: Option<&str>, rule: &Rule) -> (r: Result<
        (String, String),
        Error,
    >)
        ensures
            exists|day: int|
                i32::MIN <= day <= i32::MAX && pair_result_is(
                    r,
                    self@.source,
                    #[trigger] destination_path(
                        self@.source,
                        base_dir(root, self@.target),
                        new_name@,
                        rule@.processors,
                        day,
                    ),
                ),
            !rule_depends_on_day(rule@.processors) ==> pair_result_is(
                r,
                self@.source,
                destination_path(
                    self@.source,
                    base_dir(root, self@.target),
                    new_name@,
                    rule@.processors,
                    0,
                ),
            ),
    {
        let day = today();
        let r = self.make_destination_on(new_name, root, rule, day);
        proof {
            let dir = base_dir(root, self@.target);
            assert(pair_result_is(
                r,
                self@.source,
                destination_path(self@.source, dir, new_name@, rule@.processors, day as int),
            ));
            if !rule_depends_on_day(rule@.processors) {
                lemma_destination_day_is_idle(
                    self@.source,
                    dir,
                    new_name@,
                    rule@.processors,
                    day as int,
                    0,
                );
            }
        }
        r
    }
}

/// A destination that does not depend on the day is the same on every day.
pub proof fn lemma_destination_day_is_idle(
    source: Seq<char>,
    dir: Seq<char>,
    pattern: Seq<char>,
    processors: Option<ConfigProcessorView>,
    day: int,
    other: int,
)
    requires
        !rule_depends_on_day(processors),
    ensures
        destination_path(source, dir, pattern, processors, day) == destination_path(
            source,
            dir,
            pattern,
            processors,
            other,
        ),
{
    match parsed_name(source, pattern) {
        Ok(name) => {
            if processors is Some {
                lemma_day_is_idle(name, processors->0, day, other);
            }
        },
        Err(_) => {},
    }
}

} // verus!
