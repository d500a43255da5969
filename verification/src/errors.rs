//! The errors of this crate, and the text each of them shows.

use vstd::prelude::*;
use vstd::string::*;

verus! {

/// What can go wrong while rules are loaded, matched and applied.
#[derive(Debug, PartialEq, Eq)]
pub enum Error {
    /// A file could not be copied, moved or created.
    FileOperation { detail: String, path: String, operation: String },
    /// A pattern is no regular expression.
    PatternMatching { detail: String, pattern: String },
    /// A pattern is no glob.
    GlobPattern { detail: String, pattern: String },
    /// A path has no part that the operation needs.
    PathOperation { path: String, operation: String },
    /// The configuration could not be read.
    ConfigParsing { detail: String },
    /// The configuration was read and is not acceptable.
    ConfigValidation { detail: String },
    /// A configuration names a parent that does not exist.
    ParentNotFound { parent: String, child: String },
    /// A pattern marker could not be resolved.
    PatternExtraction { pattern: String, detail: String },
    /// A pattern did not match the value it was applied to.
    NoMatch { pattern: String, value: String },
    /// A content condition cannot be evaluated as it is written.
    ContentCondition { detail: String },
    /// A file name is not valid Unicode.
    InvalidFilename { path: String },
    /// No directory matched a directory selector.
    DirectoryNotFound { path: String },
    /// Anything else, with its message.
    Generic { message: String },
}

/// An [`Error`] with its texts as sequences of characters.
pub enum ErrorView {
    FileOperation { detail: Seq<char>, path: Seq<char>, operation: Seq<char> },
    PatternMatching { detail: Seq<char>, pattern: Seq<char> },
    GlobPattern { detail: Seq<char>, pattern: Seq<char> },
    PathOperation { path: Seq<char>, operation: Seq<char> },
    ConfigParsing { detail: Seq<char> },
    ConfigValidation { detail: Seq<char> },
    ParentNotFound { parent: Seq<char>, child: Seq<char> },
    PatternExtraction { pattern: Seq<char>, detail: Seq<char> },
    NoMatch { pattern: Seq<char>, value: Seq<char> },
    ContentCondition { detail: Seq<char> },
    InvalidFilename { path: Seq<char> },
    DirectoryNotFound { path: Seq<char> },
    Generic { message: Seq<char> },
}

impl View for Error {
    type V = ErrorView;

    open spec fn view(&self) -> ErrorView {
        match *self {
            Error::FileOperation { detail, path, operation } => ErrorView::FileOperation {
                detail: detail@,
                path: path@,
                operation: operation@,
            },
            Error::PatternMatching { detail, pattern } => ErrorView::PatternMatching {
                detail: detail@,
                pattern: pattern@,
            },
            Error::GlobPattern { detail, pattern } => ErrorView::GlobPattern {
                detail: detail@,
                pattern: pattern@,
            },
            Error::PathOperation { path, operation } => ErrorView::PathOperation {
                path: path@,
                operation: operation@,
            },
            Error::ConfigParsing { detail } => ErrorView::ConfigParsing { detail: detail@ },
            Error::ConfigValidation { detail } => ErrorView::ConfigValidation { detail: detail@ },
            Error::ParentNotFound { parent, child } => ErrorView::ParentNotFound {
                parent: parent@,
                child: child@,
            },
            Error::PatternExtraction { pattern, detail } => ErrorView::PatternExtraction {
                pattern: pattern@,
                detail: detail@,
            },
            Error::NoMatch { pattern, value } => ErrorView::NoMatch {
                pattern: pattern@,
                value: value@,
            },
            Error::ContentCondition { detail } => ErrorView::ContentCondition { detail: detail@ },
            Error::InvalidFilename { path } => ErrorView::InvalidFilename { path: path@ },
            Error::DirectoryNotFound { path } => ErrorView::DirectoryNotFound { path: path@ },
            Error::Generic { message } => ErrorView::Generic { message: message@ },
        }
    }
}

/// `actual` is the error `expected`, whatever the outside crate said in
/// detail of a pattern that it refused.
pub open spec fn error_matches(actual: ErrorView, expected: ErrorView) -> bool {
    match expected {
        ErrorView::PatternMatching { detail, pattern } => actual is PatternMatching
            && actual->PatternMatching_pattern == pattern,
        ErrorView::GlobPattern { detail, pattern } => actual is GlobPattern
            && actual->GlobPattern_pattern == pattern,
        _ => actual == expected,
    }
}

/// The error of a pattern that is no regular expression, with no detail.
pub open spec fn bad_pattern(pattern: Seq<char>) -> ErrorView {
    ErrorView::PatternMatching { detail: Seq::empty(), pattern }
}

/// The text that an error shows.
pub open spec fn message_of(e: ErrorView) -> Seq<char> {
    match e {
        ErrorView::FileOperation { detail, path, operation } => "Failed to "@ + operation + " file: "@
            + path,
        ErrorView::PatternMatching { detail, pattern } => "Invalid pattern: "@ + pattern,
        ErrorView::GlobPattern { detail, pattern } => "Invalid glob pattern: "@ + pattern,
        ErrorView::PathOperation { path, operation } => "Failed to "@ + operation + " path: "@
            + path,
        ErrorView::ConfigParsing { detail } => "Configuration parsing error: "@ + detail,
        ErrorView::ConfigValidation { detail } => detail,
        ErrorView::ParentNotFound { parent, child } => "Parent configuration file "@ + parent
            + " specified in "@ + child + " does not exist"@,
        ErrorView::PatternExtraction { pattern, detail } => "Failed to extract pattern from '"@
            + pattern + "': "@ + detail,
        ErrorView::NoMatch { pattern, value } => "No match found for pattern '"@ + pattern
            + "' in '"@ + value + "'"@,
        ErrorView::ContentCondition { detail } => detail,
        ErrorView::InvalidFilename { path } => "Filename is not valid unicode: "@ + path,
        ErrorView::DirectoryNotFound { path } => "Directory not found: "@ + path,
        ErrorView::Generic { message } => message,
    }
}

impl Error {
    /// The text that this error shows.
    pub fn message(&self) -> (s: String)
        ensures
            s@ == message_of(self@),
    {
        match self {
            Error::FileOperation { detail: _, path, operation } => {
                String::from_str("Failed to ").concat(operation.as_str()).concat(
                    " file: ",
                ).concat(path.as_str())
            },
            Error::PatternMatching { detail: _, pattern } => {
                String::from_str("Invalid pattern: ").concat(pattern.as_str())
            },
            Error::GlobPattern { detail: _, pattern } => {
                String::from_str("Invalid glob pattern: ").concat(pattern.as_str())
            },
            Error::PathOperation { path, operation } => {
                String::from_str("Failed to ").concat(operation.as_str()).concat(
                    " path: ",
                ).concat(path.as_str())
            },
            Error::ConfigParsing { detail } => {
                String::from_str("Configuration parsing error: ").concat(detail.as_str())
            },
            Error::ConfigValidation { detail } => detail.clone(),
            Error::ParentNotFound { parent, child } => {
                String::from_str("Parent configuration file ").concat(parent.as_str()).concat(
                    " specified in ",
                ).concat(child.as_str()).concat(" does not exist")
            },
            Error::PatternExtraction { pattern, detail } => {
                String::from_str("Failed to extract pattern from '").concat(
                    pattern.as_str(),
                ).concat("': ").concat(detail.as_str())
            },
            Error::NoMatch { pattern, value } => {
                String::from_str("No match found for pattern '").concat(pattern.as_str()).concat(
                    "' in '",
                ).concat(value.as_str()).concat("'")
            },
            Error::ContentCondition { detail } => detail.clone(),
            Error::InvalidFilename { path } => {
                String::from_str("Filename is not valid unicode: ").concat(path.as_str())
            },
            Error::DirectoryNotFound { path } => {
                String::from_str("Directory not found: ").concat(path.as_str())
            },
            Error::Generic { message } => message.clone(),
        }
    }
}

impl Clone for Error {
    fn clone(&self) -> (r: Self)
        ensures
            r@ == self@,
    {
        match self {
            Error::FileOperation { detail, path, operation } => Error::FileOperation {
                detail: detail.clone(),
                path: path.clone(),
                operation: operation.clone(),
            },
            Error::PatternMatching { detail, pattern } => Error::PatternMatching {
                detail: detail.clone(),
                pattern: pattern.clone(),
            },
            Error::GlobPattern { detail, pattern } => Error::GlobPattern {
                detail: detail.clone(),
                pattern: pattern.clone(),
            },
            Error::PathOperation { path, operation } => Error::PathOperation {
                path: path.clone(),
                operation: operation.clone(),
            },
            Error::ConfigParsing { detail } => Error::ConfigParsing { detail: detail.clone() },
            Error::ConfigValidation { detail } => Error::ConfigValidation {
                detail: detail.clone(),
            },
            Error::ParentNotFound { parent, child } => Error::ParentNotFound {
                parent: parent.clone(),
                child: child.clone(),
            },
            Error::PatternExtraction { pattern, detail } => Error::PatternExtraction {
                pattern: pattern.clone(),
                detail: detail.clone(),
            },
            Error::NoMatch { pattern, value } => Error::NoMatch {
                pattern: pattern.clone(),
                value: value.clone(),
            },
            Error::ContentCondition { detail } => Error::ContentCondition {
                detail: detail.clone(),
            },
            Error::InvalidFilename { path } => Error::InvalidFilename { path: path.clone() },
            Error::DirectoryNotFound { path } => Error::DirectoryNotFound { path: path.clone() },
            Error::Generic { message } => Error::Generic { message: message.clone() },
        }
    }
}

/// The error of a file operation that failed; `detail` says what the system reported.
pub fn file_operation_error(detail: &str, path: String, operation: &str) -> (e: Error)
    ensures
        e@ == (ErrorView::FileOperation { detail: detail@, path: path@, operation: operation@ }),
{
    Error::FileOperation {
        detail: String::from_str(detail),
        path,
        operation: String::from_str(operation),
    }
}

/// The error of a pattern that is no regular expression; `detail` says why.
pub fn pattern_matching_error(detail: &str, pattern: &str) -> (e: Error)
    ensures
        e@ == (ErrorView::PatternMatching { detail: detail@, pattern: pattern@ }),
{
    Error::PatternMatching { detail: String::from_str(detail), pattern: String::from_str(pattern) }
}

/// The error of a pattern that is no glob; `detail` says why.
pub fn glob_pattern_error(detail: &str, pattern: &str) -> (e: Error)
    ensures
        e@ == (ErrorView::GlobPattern { detail: detail@, pattern: pattern@ }),
{
    Error::GlobPattern { detail: String::from_str(detail), pattern: String::from_str(pattern) }
}

/// The error of a path that lacks what an operation needs.
pub fn path_operation_error(path: String, operation: &str) -> (e: Error)
    ensures
        e@ == (ErrorView::PathOperation { path: path@, operation: operation@ }),
{
    Error::PathOperation { path, operation: String::from_str(operation) }
}

/// The error of a configuration that could not be read.
pub fn config_parsing_error(detail: &str) -> (e: Error)
    ensures
        e@ == (ErrorView::ConfigParsing { detail: detail@ }),
{
    Error::ConfigParsing { detail: String::from_str(detail) }
}

/// The error of a pattern marker that could not be resolved.
pub fn pattern_extraction_error(pattern: &str, detail: &str) -> (e: Error)
    ensures
        e@ == (ErrorView::PatternExtraction { pattern: pattern@, detail: detail@ }),
{
    Error::PatternExtraction {
        pattern: String::from_str(pattern),
        detail: String::from_str(detail),
    }
}

/// The error of a pattern that did not match.
pub fn no_match_error(pattern: &str, value: &str) -> (e: Error)
    ensures
        e@ == (ErrorView::NoMatch { pattern: pattern@, value: value@ }),
{
    Error::NoMatch { pattern: String::from_str(pattern), value: String::from_str(value) }
}

/// The error of a file name that is not valid Unicode.
pub fn invalid_filename_error(path: String) -> (e: Error)
    ensures
        e@ == (ErrorView::InvalidFilename { path: path@ }),
{
    Error::InvalidFilename { path }
}

/// The error of a directory selector that found nothing.
pub fn directory_not_found_error(path: String) -> (e: Error)
    ensures
        e@ == (ErrorView::DirectoryNotFound { path: path@ }),
{
    Error::DirectoryNotFound { path }
}

/// An error that is only a message.
pub fn generic_error(message: &str) -> (e: Error)
    ensures
        e@ == (ErrorView::Generic { message: message@ }),
{
    Error::Generic { message: String::from_str(message) }
}

} // verus!
