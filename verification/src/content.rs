//! Conditions on what a file is and holds, beyond its name.
//!
//! A rule may ask for more than a matching name: a size, a time, a kind of
//! content. What is known of a file is gathered in a [`ContentAnalysis`]; a
//! [`ContentCondition`] compares one property of it with a value, which the
//! configuration always gives as text.

use vstd::prelude::*;
use vstd::string::*;
use crate::dates::{parse_rfc3339, rfc3339_instant};
use crate::errors::{Error, ErrorView};
use crate::numbers::{bool_of_text, parse_bool, parse_u64, u64_of_text};
use crate::paths::{extension, extension_of};
use crate::regex_engine::{is_match, regex_compiles, regex_matches};
use crate::text::{
    chars_of, contains, contains_sub, ends_with, ends_with_sub, same_chars, starts_with,
    starts_with_sub,
};

verus! {

/// A moment in time: whole seconds since the start of 1970 in UTC, and the
/// nanoseconds into that second.
#[derive(Debug, Clone, Copy, PartialEq, Eq, Structural)]
pub struct Timestamp {
    pub secs: i64,
    pub nanos: u32,
}

/// What the file system knows of a file.
#[derive(Debug, PartialEq, Eq)]
pub struct FileMetadata {
    /// The size in bytes.
    pub size: u64,
    /// When the file was last changed.
    pub modified: Timestamp,
    /// When the file was created.
    pub created: Timestamp,
    /// The MIME type, by the file's extension.
    pub mime_type: String,
}

/// What is known of a file and of its content.
#[derive(Debug, PartialEq, Eq)]
pub struct ContentAnalysis {
    /// What the file system knows of the file.
    pub metadata: FileMetadata,
    /// The beginning of the content as text; none for a binary file.
    pub text_preview: Option<String>,
    /// Whether the file holds text.
    pub is_text: bool,
    /// Whether the file holds binary data.
    pub is_binary: bool,
}

/// How a property is compared with the value of a condition.
#[derive(Debug, Clone, Copy, PartialEq, Eq, Structural)]
pub enum ConditionOperator {
    Equal,
    NotEqual,
    GreaterThan,
    LessThan,
    GreaterThanOrEqual,
    LessThanOrEqual,
    Contains,
    StartsWith,
    EndsWith,
    Matches,
}

/// The property of a file that a condition looks at.
#[derive(Debug, Clone, Copy, PartialEq, Eq, Structural)]
pub enum ContentProperty {
    Size,
    Modified,
    Created,
    MimeType,
    Content,
    IsText,
    IsBinary,
}

/// One condition of a rule: a property, an operator and a value.
#[derive(Debug, PartialEq, Eq)]
pub struct ContentCondition {
    /// The property to look at.
    pub property: ContentProperty,
    /// How to compare it.
    pub operator: ConditionOperator,
    /// What to compare it with, as the configuration wrote it.
    pub value: String,
}

/// A [`FileMetadata`] with its text as a sequence of characters.
pub struct FileMetadataView {
    pub size: u64,
    pub modified: Timestamp,
    pub created: Timestamp,
    pub mime_type: Seq<char>,
}

/// A [`ContentAnalysis`] with its texts as sequences of characters.
pub struct ContentAnalysisView {
    pub metadata: FileMetadataView,
    pub text_preview: Option<Seq<char>>,
    pub is_text: bool,
    pub is_binary: bool,
}

/// A [`ContentCondition`] with its value as a sequence of characters.
pub struct ContentConditionView {
    pub property: ContentProperty,
    pub operator: ConditionOperator,
    pub value: Seq<char>,
}

impl View for FileMetadata {
    type V = FileMetadataView;

    open spec fn view(&self) -> FileMetadataView {
        FileMetadataView {
            size: self.size,
            modified: self.modified,
            created: self.created,
            mime_type: self.mime_type@,
        }
    }
}

impl DeepView for FileMetadata {
    type V = FileMetadataView;

    open spec fn deep_view(&self) -> FileMetadataView {
        self@
    }
}

impl View for ContentAnalysis {
    type V = ContentAnalysisView;

    open spec fn view(&self) -> ContentAnalysisView {
        ContentAnalysisView {
            metadata: self.metadata@,
            text_preview: self.text_preview.deep_view(),
            is_text: self.is_text,
            is_binary: self.is_binary,
        }
    }
}

impl DeepView for ContentAnalysis {
    type V = ContentAnalysisView;

    open spec fn deep_view(&self) -> ContentAnalysisView {
        self@
    }
}

impl View for ContentCondition {
    type V = ContentConditionView;

    open spec fn view(&self) -> ContentConditionView {
        ContentConditionView {
            property: self.property,
            operator: self.operator,
            value: self.value@,
        }
    }
}

impl DeepView for ContentCondition {
    type V = ContentConditionView;

    open spec fn deep_view(&self) -> ContentConditionView {
        self@
    }
}

impl Clone for FileMetadata {
    fn clone(&self) -> (r: Self)
        ensures
            r@ == self@,
    {
        FileMetadata {
            size: self.size,
            modified: self.modified,
            created: self.created,
            mime_type: self.mime_type.clone(),
        }
    }
}

impl Clone for ContentAnalysis {
    fn clone(&self) -> (r: Self)
        ensures
            r@ == self@,
    {
        let text_preview = match &self.text_preview {
            Some(text) => Some(text.clone()),
            None => None,
        };
        ContentAnalysis {
            metadata: self.metadata.clone(),
            text_preview,
            is_text: self.is_text,
            is_binary: self.is_binary,
        }
    }
}

impl Clone for ContentCondition {
    fn clone(&self) -> (r: Self)
        ensures
            r@ == self@,
    {
        ContentCondition {
            property: self.property,
            operator: self.operator,
            value: self.value.clone(),
        }
    }
}

/// The MIME type that goes with a file extension.
pub open spec fn mime_of_extension(ext: Option<Seq<char>>) -> Seq<char> {
    match ext {
        None => "application/octet-stream"@,
        Some(e) => if e == "txt"@ {
            "text/plain"@
        } else if e == "html"@ || e == "htm"@ {
            "text/html"@
        } else if e == "css"@ {
            "text/css"@
        } else if e == "js"@ {
            "application/javascript"@
        } else if e == "json"@ {
            "application/json"@
        } else if e == "xml"@ {
            "application/xml"@
        } else if e == "pdf"@ {
            "application/pdf"@
        } else if e == "jpg"@ || e == "jpeg"@ {
            "image/jpeg"@
        } else if e == "png"@ {
            "image/png"@
        } else if e == "gif"@ {
            "image/gif"@
        } else if e == "svg"@ {
            "image/svg+xml"@
        } else if e == "mp3"@ {
            "audio/mpeg"@
        } else if e == "mp4"@ {
            "video/mp4"@
        } else if e == "zip"@ {
            "application/zip"@
        } else if e == "doc"@ || e == "docx"@ {
            "application/msword"@
        } else if e == "xls"@ || e == "xlsx"@ {
            "application/vnd.ms-excel"@
        } else if e == "ppt"@ || e == "pptx"@ {
            "application/vnd.ms-powerpoint"@
        } else {
            "application/octet-stream"@
        },
    }
}

/// How many bytes of a file are looked at to tell text from binary data, and
/// how many of them make the preview.
pub const PREVIEW_BYTES: usize = 1024;

/// The bytes of a file that are looked at: its first 1024.
pub open spec fn inspected(head: Seq<u8>) -> Seq<u8> {
    if head.len() > 1024 {
        head.take(1024)
    } else {
        head
    }
}

/// A file counts as text when none of the bytes looked at is zero, and as
/// binary when one of them is. An empty file is therefore text.
pub open spec fn looks_like_text(head: Seq<u8>) -> bool {
    forall|i: int| 0 <= i < inspected(head).len() ==> inspected(head)[i] != 0
}

/// `bytes` read as UTF-8 text, with the replacement character for what is no
/// UTF-8: what `String::from_utf8_lossy` returns.
pub uninterp spec fn lossy_text(bytes: Seq<u8>) -> Seq<char>;

/// Reads bytes as UTF-8 text through `String::from_utf8_lossy` of the
/// standard library, which puts the replacement character for every invalid
/// sequence.
#[verifier::external_body]
fn decode_lossy(bytes: &Vec<u8>) -> (s: String)
    ensures
        s@ == lossy_text(bytes@),
{
    String::from_utf8_lossy(bytes).into_owned()
}

/// The analysis of a file from what was read of it.
pub open spec fn analysis_of(
    path: Seq<char>,
    size: u64,
    modified: Timestamp,
    created: Timestamp,
    head: Seq<u8>,
) -> ContentAnalysisView {
    ContentAnalysisView {
        metadata: FileMetadataView {
            size,
            modified,
            created,
            mime_type: mime_of_extension(extension_of(path)),
        },
        text_preview: if looks_like_text(head) {
            Some(lossy_text(inspected(head)))
        } else {
            None
        },
        is_text: looks_like_text(head),
        is_binary: !looks_like_text(head),
    }
}

/// The name of an operator, as error messages show it.
pub open spec fn operator_name(op: ConditionOperator) -> Seq<char> {
    match op {
        ConditionOperator::Equal => "Equal"@,
        ConditionOperator::NotEqual => "NotEqual"@,
        ConditionOperator::GreaterThan => "GreaterThan"@,
        ConditionOperator::LessThan => "LessThan"@,
        ConditionOperator::GreaterThanOrEqual => "GreaterThanOrEqual"@,
        ConditionOperator::LessThanOrEqual => "LessThanOrEqual"@,
        ConditionOperator::Contains => "Contains"@,
        ConditionOperator::StartsWith => "StartsWith"@,
        ConditionOperator::EndsWith => "EndsWith"@,
        ConditionOperator::Matches => "Matches"@,
    }
}

/// How two numbers compare under an operator; nothing for an operator that
/// does not compare numbers.
pub open spec fn compare_numbers(op: ConditionOperator, left: int, right: int) -> Option<bool> {
    match op {
        ConditionOperator::Equal => Some(left == right),
        ConditionOperator::NotEqual => Some(left != right),
        ConditionOperator::GreaterThan => Some(left > right),
        ConditionOperator::LessThan => Some(left < right),
        ConditionOperator::GreaterThanOrEqual => Some(left >= right),
        ConditionOperator::LessThanOrEqual => Some(left <= right),
        _ => None,
    }
}

/// How two truth values compare under an operator; nothing for an operator
/// other than equality and inequality.
pub open spec fn compare_flags(op: ConditionOperator, left: bool, right: bool) -> Option<bool> {
    match op {
        ConditionOperator::Equal => Some(left == right),
        ConditionOperator::NotEqual => Some(left != right),
        _ => None,
    }
}

/// How a MIME type compares with a value under an operator; nothing for an
/// operator that does not apply to it.
pub open spec fn compare_mime(op: ConditionOperator, mime: Seq<char>, value: Seq<char>) -> Option<
    bool,
> {
    match op {
        ConditionOperator::Equal => Some(mime == value),
        ConditionOperator::NotEqual => Some(mime != value),
        ConditionOperator::Contains => Some(contains_sub(mime, value)),
        ConditionOperator::StartsWith => Some(starts_with_sub(mime, value)),
        ConditionOperator::EndsWith => Some(ends_with_sub(mime, value)),
        _ => None,
    }
}

/// A moment as one number that orders as moments do.
pub open spec fn instant_key(secs: int, nanos: int) -> int {
    secs * 4294967296 + nanos
}

/// What evaluating a condition comes to.
pub enum ConditionOutcome {
    /// The condition can be evaluated, and holds or does not.
    Decided(bool),
    /// The condition cannot be evaluated; the text says why.
    Refused(Seq<char>),
    /// The value of a `Matches` condition is no regular expression.
    BadPattern,
}

/// The outcome for an operator that the property does not admit.
pub open spec fn refused_operator(what: Seq<char>, op: ConditionOperator) -> ConditionOutcome {
    ConditionOutcome::Refused(
        "Invalid operator for "@ + what + " comparison: "@ + operator_name(op),
    )
}

/// The outcome of comparing a moment of the file with the value of a condition.
pub open spec fn time_outcome(c: ContentConditionView, moment: Timestamp) -> ConditionOutcome {
    match rfc3339_instant(c.value) {
        None => ConditionOutcome::Refused(
            "Invalid date format: "@ + c.value
                + ". Use ISO 8601 format (e.g., 2025-08-07T07:23:00Z)"@,
        ),
        Some(asked) => match compare_numbers(
            c.operator,
            instant_key(moment.secs as int, moment.nanos as int),
            instant_key(asked.0 as int, asked.1 as int),
        ) {
            Some(b) => ConditionOutcome::Decided(b),
            None => refused_operator("date"@, c.operator),
        },
    }
}

/// The outcome of comparing a truth value of the file with the value of a condition.
pub open spec fn flag_outcome(c: ContentConditionView, flag: bool, what: Seq<char>) -> ConditionOutcome {
    match bool_of_text(c.value) {
        None => ConditionOutcome::Refused("Invalid boolean value: "@ + c.value),
        Some(asked) => match compare_flags(c.operator, flag, asked) {
            Some(b) => ConditionOutcome::Decided(b),
            None => refused_operator(what, c.operator),
        },
    }
}

/// The outcome of a condition on the text of the file.
pub open spec fn text_outcome(c: ContentConditionView, preview: Option<Seq<char>>) -> ConditionOutcome {
    match preview {
        None => ConditionOutcome::Decided(false),
        Some(text) => match c.operator {
            ConditionOperator::Contains => ConditionOutcome::Decided(contains_sub(text, c.value)),
            ConditionOperator::StartsWith => ConditionOutcome::Decided(
                starts_with_sub(text, c.value),
            ),
            ConditionOperator::EndsWith => ConditionOutcome::Decided(
                ends_with_sub(text, c.value),
            ),
            ConditionOperator::Matches => if regex_compiles(c.value) {
                ConditionOutcome::Decided(regex_matches(c.value, text))
            } else {
                ConditionOutcome::BadPattern
            },
            _ => refused_operator("content"@, c.operator),
        },
    }
}

/// What evaluating the condition `c` on the analysis `a` comes to.
pub open spec fn condition_outcome(c: ContentConditionView, a: ContentAnalysisView) -> ConditionOutcome {
    match c.property {
        ContentProperty::Size => match u64_of_text(c.value) {
            None => ConditionOutcome::Refused("Invalid size value: "@ + c.value),
            Some(asked) => match compare_numbers(c.operator, a.metadata.size as int, asked as int) {
                Some(b) => ConditionOutcome::Decided(b),
                None => refused_operator("size"@, c.operator),
            },
        },
        ContentProperty::MimeType => match compare_mime(
            c.operator,
            a.metadata.mime_type,
            c.value,
        ) {
            Some(b) => ConditionOutcome::Decided(b),
            None => refused_operator("mime type"@, c.operator),
        },
        ContentProperty::IsText => flag_outcome(c, a.is_text, "is_text"@),
        ContentProperty::IsBinary => flag_outcome(c, a.is_binary, "is_binary"@),
        ContentProperty::Content => text_outcome(c, a.text_preview),
        ContentProperty::Modified => time_outcome(c, a.metadata.modified),
        ContentProperty::Created => time_outcome(c, a.metadata.created),
    }
}

/// Whether a result of [`evaluate_condition`] is the given outcome.
pub open spec fn is_outcome(
    r: Result<bool, Error>,
    outcome: ConditionOutcome,
    value: Seq<char>,
) -> bool {
    match outcome {
        ConditionOutcome::Decided(b) => r == Ok::<bool, Error>(b),
        ConditionOutcome::Refused(detail) => r is Err && r->Err_0@ == (
            ErrorView::ContentCondition { detail }
        ),
        ConditionOutcome::BadPattern => r is Err && r->Err_0@ is PatternMatching
            && r->Err_0@->PatternMatching_pattern == value,
    }
}

/// The MIME type that goes with a file extension.
pub fn mime_type_for(ext: &Option<String>) -> (r: String)
    ensures
        r@ == mime_of_extension(ext.deep_view()),
{
    let e = match ext {
        None => {
            return String::from_str("application/octet-stream");
        },
        Some(e) => chars_of(e.as_str()),
    };
    if same_chars(&e, &chars_of("txt")) {
        String::from_str("text/plain")
    } else if same_chars(&e, &chars_of("html")) || same_chars(&e, &chars_of("htm")) {
        String::from_str("text/html")
    } else if same_chars(&e, &chars_of("css")) {
        String::from_str("text/css")
    } else if same_chars(&e, &chars_of("js")) {
        String::from_str("application/javascript")
    } else if same_chars(&e, &chars_of("json")) {
        String::from_str("application/json")
    } else if same_chars(&e, &chars_of("xml")) {
        String::from_str("application/xml")
    } else if same_chars(&e, &chars_of("pdf")) {
        String::from_str("application/pdf")
    } else if same_chars(&e, &chars_of("jpg")) || same_chars(&e, &chars_of("jpeg")) {
        String::from_str("image/jpeg")
    } else if same_chars(&e, &chars_of("png")) {
        String::from_str("image/png")
    } else if same_chars(&e, &chars_of("gif")) {
        String::from_str("image/gif")
    } else if same_chars(&e, &chars_of("svg")) {
        String::from_str("image/svg+xml")
    } else if same_chars(&e, &chars_of("mp3")) {
        String::from_str("audio/mpeg")
    } else if same_chars(&e, &chars_of("mp4")) {
        String::from_str("video/mp4")
    } else if same_chars(&e, &chars_of("zip")) {
        String::from_str("application/zip")
    } else if same_chars(&e, &chars_of("doc")) || same_chars(&e, &chars_of("docx")) {
        String::from_str("application/msword")
    } else if same_chars(&e, &chars_of("xls")) || same_chars(&e, &chars_of("xlsx")) {
        String::from_str("application/vnd.ms-excel")
    } else if same_chars(&e, &chars_of("ppt")) || same_chars(&e, &chars_of("pptx")) {
        String::from_str("application/vnd.ms-powerpoint")
    } else {
        String::from_str("application/octet-stream")
    }
}

/// The metadata of the file at `path`, from what the file system told of it.
/// The MIME type goes by the extension of the path alone.
pub fn get_file_metadata(path: &str, size: u64, modified: Timestamp, created: Timestamp) -> (r:
    FileMetadata)
    ensures
        r@ == (FileMetadataView {
            size,
            modified,
            created,
            mime_type: mime_of_extension(extension_of(path@)),
        }),
{
    let ext = extension(path);
    FileMetadata { size, modified, created, mime_type: mime_type_for(&ext) }
}

/// The first 1024 bytes of `head`, or all of them where there are fewer.
pub fn inspected_bytes(head: &Vec<u8>) -> (r: Vec<u8>)
    ensures
        r@ == inspected(head@),
{
    let n: usize = if head.len() > PREVIEW_BYTES {
        PREVIEW_BYTES
    } else {
        head.len()
    };
    let mut r: Vec<u8> = Vec::new();
    let mut i: usize = 0;
    while i < n
        invariant
            i <= n <= head.len(),
            r@ == head@.take(i as int),
        decreases n - i,
    {
        r.push(head[i]);
        i += 1;
        assert(r@ =~= head@.take(i as int));
    }
    assert(head@.take(head.len() as int) =~= head@);
    r
}

/// Whether the beginning of a file looks like text: no byte among the
/// first 1024 is zero. An empty file is text.
pub fn is_text_file(head: &Vec<u8>) -> (r: bool)
    ensures
        r == looks_like_text(head@),
{
    let looked = inspected_bytes(head);
    let mut i: usize = 0;
    while i < looked.len()
        invariant
            i <= looked.len(),
            looked@ == inspected(head@),
            forall|k: int| 0 <= k < i ==> looked@[k] != 0,
        decreases looked.len() - i,
    {
        if looked[i] == 0 {
            return false;
        }
        i += 1;
    }
    true
}

/// The beginning of a file as text: its first 1024 bytes read as UTF-8, with
/// the replacement character for what is no UTF-8.
pub fn get_content_preview(head: &Vec<u8>) -> (r: String)
    ensures
        r@ == lossy_text(inspected(head@)),
{
    let looked = inspected_bytes(head);
    decode_lossy(&looked)
}

/// Analyses a file from what was read of it: its size and times, and the
/// beginning of its content. A file with a zero byte among its first 1024
/// bytes is binary and has no preview; any other file, an empty one too, is
/// text, and its preview is the beginning of its content.
pub fn analyse_file_content(
    path: &str,
    size: u64,
    modified: Timestamp,
    created: Timestamp,
    head: &Vec<u8>,
) -> (r: ContentAnalysis)
    ensures
        r@ == analysis_of(path@, size, modified, created, head@),
{
    let metadata = get_file_metadata(path, size, modified, created);
    let is_text = is_text_file(head);
    let text_preview = if is_text {
        Some(get_content_preview(head))
    } else {
        None
    };
    ContentAnalysis { metadata, text_preview, is_text, is_binary: !is_text }
}

/// The name of an operator, as error messages show it.
pub fn name_of_operator(op: ConditionOperator) -> (r: String)
    ensures
        r@ == operator_name(op),
{
    match op {
        ConditionOperator::Equal => String::from_str("Equal"),
        ConditionOperator::NotEqual => String::from_str("NotEqual"),
        ConditionOperator::GreaterThan => String::from_str("GreaterThan"),
        ConditionOperator::LessThan => String::from_str("LessThan"),
        ConditionOperator::GreaterThanOrEqual => String::from_str("GreaterThanOrEqual"),
        ConditionOperator::LessThanOrEqual => String::from_str("LessThanOrEqual"),
        ConditionOperator::Contains => String::from_str("Contains"),
        ConditionOperator::StartsWith => String::from_str("StartsWith"),
        ConditionOperator::EndsWith => String::from_str("EndsWith"),
        ConditionOperator::Matches => String::from_str("Matches"),
    }
}

/// The error for an operator that a property does not admit.
fn operator_error(what: &str, op: ConditionOperator) -> (e: Error)
    ensures
        refused_operator(what@, op) == ConditionOutcome::Refused(e@->ContentCondition_detail),
        e@ is ContentCondition,
{
    let name = name_of_operator(op);
    let detail = String::from_str("Invalid operator for ").concat(what).concat(
        " comparison: ",
    ).concat(name.as_str());
    Error::ContentCondition { detail }
}

/// Compares two numbers under an operator.
fn numbers_compare(op: ConditionOperator, left: i128, right: i128) -> (r: Option<bool>)
    ensures
        r == compare_numbers(op, left as int, right as int),
{
    match op {
        ConditionOperator::Equal => Some(left == right),
        ConditionOperator::NotEqual => Some(left != right),
        ConditionOperator::GreaterThan => Some(left > right),
        ConditionOperator::LessThan => Some(left < right),
        ConditionOperator::GreaterThanOrEqual => Some(left >= right),
        ConditionOperator::LessThanOrEqual => Some(left <= right),
        _ => None,
    }
}

/// A moment as one number that orders as moments do.
fn key_of(moment: Timestamp) -> (k: i128)
    ensures
        k == instant_key(moment.secs as int, moment.nanos as int),
{
    let secs: i128 = moment.secs as i128;
    let nanos: i128 = moment.nanos as i128;
    secs * 4294967296 + nanos
}

/// Compares a moment of the file with the value of a condition.
fn evaluate_time(condition: &ContentCondition, moment: Timestamp) -> (r: Result<bool, Error>)
    ensures
        is_outcome(r, time_outcome(condition@, moment), condition.value@),
{
    let asked = match parse_rfc3339(condition.value.as_str()) {
        Some(asked) => asked,
        None => {
            let detail = String::from_str("Invalid date format: ").concat(
                condition.value.as_str(),
            ).concat(". Use ISO 8601 format (e.g., 2025-08-07T07:23:00Z)");
            return Err(Error::ContentCondition { detail });
        },
    };
    match numbers_compare(condition.operator, key_of(moment), key_of(asked)) {
        Some(b) => Ok(b),
        None => Err(operator_error("date", condition.operator)),
    }
}

/// Compares a truth value of the file with the value of a condition.
fn evaluate_flag(condition: &ContentCondition, flag: bool, what: &str) -> (r: Result<bool, Error>)
    ensures
        is_outcome(r, flag_outcome(condition@, flag, what@), condition.value@),
{
    let asked = match parse_bool(condition.value.as_str()) {
        Some(asked) => asked,
        None => {
            let detail = String::from_str("Invalid boolean value: ").concat(
                condition.value.as_str(),
            );
            return Err(Error::ContentCondition { detail });
        },
    };
    match condition.operator {
        ConditionOperator::Equal => Ok(flag == asked),
        ConditionOperator::NotEqual => Ok(flag != asked),
        _ => Err(operator_error(what, condition.operator)),
    }
}

/// Evaluates a condition on the text of the file.
fn evaluate_text(condition: &ContentCondition, preview: &Option<String>) -> (r: Result<
    bool,
    Error,
>)
    ensures
        is_outcome(r, text_outcome(condition@, preview.deep_view()), condition.value@),
{
    let text = match preview {
        Some(text) => text,
        None => {
            return Ok(false);
        },
    };
    match condition.operator {
        ConditionOperator::Contains => Ok(
            contains(&chars_of(text.as_str()), &chars_of(condition.value.as_str())),
        ),
        ConditionOperator::StartsWith => Ok(
            starts_with(&chars_of(text.as_str()), &chars_of(condition.value.as_str())),
        ),
        ConditionOperator::EndsWith => Ok(
            ends_with(&chars_of(text.as_str()), &chars_of(condition.value.as_str())),
        ),
        ConditionOperator::Matches => match is_match(condition.value.as_str(), text.as_str()) {
            Ok(found) => Ok(found),
            Err(detail) => Err(
                Error::PatternMatching { detail, pattern: condition.value.clone() },
            ),
        },
        _ => Err(operator_error("content", condition.operator)),
    }
}

/// Evaluates one condition of a rule on the analysis of a file.
///
/// The result is an error, not `false`, where the value cannot be read for
/// the property (a size that is no number, a time that is no RFC 3339 date, a
/// truth value other than `true` and `false`), where the operator does not
/// apply to the property, and where the value of a `Matches` condition is no
/// regular expression. A condition on the content of a file without a text
/// preview is `false`.
pub fn evaluate_condition(condition: &ContentCondition, analysis: &ContentAnalysis) -> (r: Result<
    bool,
    Error,
>)
    ensures
        is_outcome(r, condition_outcome(condition@, analysis@), condition.value@),
{
    match condition.property {
        ContentProperty::Size => {
            let asked = match parse_u64(condition.value.as_str()) {
                Some(asked) => asked,
                None => {
                    let detail = String::from_str("Invalid size value: ").concat(
                        condition.value.as_str(),
                    );
                    return Err(Error::ContentCondition { detail });
                },
            };
            match numbers_compare(
                condition.operator,
                analysis.metadata.size as i128,
                asked as i128,
            ) {
                Some(b) => Ok(b),
                None => Err(operator_error("size", condition.operator)),
            }
        },
        ContentProperty::MimeType => {
            let mime = chars_of(analysis.metadata.mime_type.as_str());
            let value = chars_of(condition.value.as_str());
            match condition.operator {
                ConditionOperator::Equal => Ok(same_chars(&mime, &value)),
                ConditionOperator::NotEqual => Ok(!same_chars(&mime, &value)),
                ConditionOperator::Contains => Ok(contains(&mime, &value)),
                ConditionOperator::StartsWith => Ok(starts_with(&mime, &value)),
                ConditionOperator::EndsWith => Ok(ends_with(&mime, &value)),
                _ => Err(operator_error("mime type", condition.operator)),
            }
        },
        ContentProperty::IsText => evaluate_flag(condition, analysis.is_text, "is_text"),
        ContentProperty::IsBinary => evaluate_flag(condition, analysis.is_binary, "is_binary"),
        ContentProperty::Content => evaluate_text(condition, &analysis.text_preview),
        ContentProperty::Modified => evaluate_time(condition, analysis.metadata.modified),
        ContentProperty::Created => evaluate_time(condition, analysis.metadata.created),
    }
}

/// Whether a property can be compared under an operator: sizes and times
/// under the six comparisons of numbers; the MIME type under equality,
/// inequality and the three searches in a text; the content under those
/// three searches and under a regular expression; the two truth values under
/// equality and inequality.
pub open spec fn admits_operator(property: ContentProperty, op: ConditionOperator) -> bool {
    match property {
        ContentProperty::Size | ContentProperty::Modified | ContentProperty::Created => {
            op is Equal || op is NotEqual || op is GreaterThan || op is LessThan
                || op is GreaterThanOrEqual || op is LessThanOrEqual
        },
        ContentProperty::MimeType => {
            op is Equal || op is NotEqual || op is Contains || op is StartsWith || op is EndsWith
        },
        ContentProperty::Content => {
            op is Contains || op is StartsWith || op is EndsWith || op is Matches
        },
        ContentProperty::IsText | ContentProperty::IsBinary => op is Equal || op is NotEqual,
    }
}

/// Whether a property can be compared with a value: a size with a whole
/// number that fits 64 bits, a time with an RFC 3339 date and time, a truth
/// value with `true` or `false`, the MIME type and the content with any text.
pub open spec fn admits_value(property: ContentProperty, value: Seq<char>) -> bool {
    match property {
        ContentProperty::Size => u64_of_text(value) is Some,
        ContentProperty::Modified | ContentProperty::Created => rfc3339_instant(value) is Some,
        ContentProperty::IsText | ContentProperty::IsBinary => bool_of_text(value) is Some,
        ContentProperty::MimeType | ContentProperty::Content => true,
    }
}

/// The operators, in the order in which they are listed.
pub open spec fn all_operators() -> Seq<ConditionOperator> {
    seq![
        ConditionOperator::Equal,
        ConditionOperator::NotEqual,
        ConditionOperator::GreaterThan,
        ConditionOperator::LessThan,
        ConditionOperator::GreaterThanOrEqual,
        ConditionOperator::LessThanOrEqual,
        ConditionOperator::Contains,
        ConditionOperator::StartsWith,
        ConditionOperator::EndsWith,
        ConditionOperator::Matches,
    ]
}

/// A condition is evaluated exactly as its property admits its value and
/// its operator. A value that the property does not admit is refused. An
/// operator that it does not admit is refused too, unless the condition is
/// on the content of a file that has no preview, which is simply not met.
/// Where both are admitted the condition is decided, unless its value is to
/// be a regular expression and is none.
pub proof fn lemma_admitted_is_decided(c: ContentConditionView, a: ContentAnalysisView)
    ensures
        !admits_value(c.property, c.value) ==> condition_outcome(c, a) is Refused,
        admits_value(c.property, c.value) && !admits_operator(c.property, c.operator) && !(
        c.property is Content && a.text_preview is None) ==> condition_outcome(c, a) is Refused,
        admits_value(c.property, c.value) && admits_operator(c.property, c.operator)
            ==> condition_outcome(c, a) is Decided || (c.operator is Matches && condition_outcome(
            c,
            a,
        ) is BadPattern),
{
}

/// Whether a property can be compared under an operator.
pub fn operator_admitted(property: ContentProperty, op: ConditionOperator) -> (r: bool)
    ensures
        r == admits_operator(property, op),
{
    match property {
        ContentProperty::Size | ContentProperty::Modified | ContentProperty::Created => match op {
            ConditionOperator::Equal
            | ConditionOperator::NotEqual
            | ConditionOperator::GreaterThan
            | ConditionOperator::LessThan
            | ConditionOperator::GreaterThanOrEqual
            | ConditionOperator::LessThanOrEqual => true,
            _ => false,
        },
        ContentProperty::MimeType => match op {
            ConditionOperator::Equal
            | ConditionOperator::NotEqual
            | ConditionOperator::Contains
            | ConditionOperator::StartsWith
            | ConditionOperator::EndsWith => true,
            _ => false,
        },
        ContentProperty::Content => match op {
            ConditionOperator::Contains
            | ConditionOperator::StartsWith
            | ConditionOperator::EndsWith
            | ConditionOperator::Matches => true,
            _ => false,
        },
        ContentProperty::IsText | ContentProperty::IsBinary => match op {
            ConditionOperator::Equal | ConditionOperator::NotEqual => true,
            _ => false,
        },
    }
}

/// Whether a property can be compared with a value.
pub fn value_admitted(property: ContentProperty, value: &str) -> (r: bool)
    ensures
        r == admits_value(property, value@),
{
    match property {
        ContentProperty::Size => parse_u64(value).is_some(),
        ContentProperty::Modified | ContentProperty::Created => parse_rfc3339(value).is_some(),
        ContentProperty::IsText | ContentProperty::IsBinary => parse_bool(value).is_some(),
        ContentProperty::MimeType | ContentProperty::Content => true,
    }
}

/// The operators under which a property can be compared, in the order in
/// which the operators are listed.
pub fn admitted_operators(property: ContentProperty) -> (r: Vec<ConditionOperator>)
    ensures
        r@ == all_operators().filter(|op: ConditionOperator| admits_operator(property, op)),
{
    let all: Vec<ConditionOperator> = vec![
        ConditionOperator::Equal,
        ConditionOperator::NotEqual,
        ConditionOperator::GreaterThan,
        ConditionOperator::LessThan,
        ConditionOperator::GreaterThanOrEqual,
        ConditionOperator::LessThanOrEqual,
        ConditionOperator::Contains,
        ConditionOperator::StartsWith,
        ConditionOperator::EndsWith,
        ConditionOperator::Matches,
    ];
    let ghost keep = |op: ConditionOperator| admits_operator(property, op);
    let mut admitted: Vec<ConditionOperator> = Vec::new();
    let mut i: usize = 0;
    proof {
        assert(all@ =~= all_operators());
        assert(all@.take(0) =~= Seq::<ConditionOperator>::empty());
    }
    while i < all.len()
        invariant
            i <= all.len(),
            all@ == all_operators(),
            keep == (|op: ConditionOperator| admits_operator(property, op)),
            admitted@ == all@.take(i as int).filter(keep),
        decreases all.len() - i,
    {
        let op = all[i];
        proof {
            let so_far = all@.take(i as int);
            let next = all@.take(i + 1);
            assert(next =~= so_far.push(op));
            assert(next.drop_last() =~= so_far);
            reveal(Seq::filter);
        }
        if operator_admitted(property, op) {
            admitted.push(op);
        }
        i += 1;
    }
    proof {
        assert(all@.take(all.len() as int) =~= all@);
    }
    admitted
}

} // verus!
