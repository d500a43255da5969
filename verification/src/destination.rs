//! The destination of a matching file, and the conversion that goes with it.
//!
//! The new name of a file is the part of its name that the rule's template
//! matches, rewritten by the rule's processors. Whether the file is also to
//! be converted is decided here; the conversion itself is the work of the
//! caller, who is told what kind it is.

use vstd::prelude::*;
use vstd::string::*;
use crate::dates::today;
use crate::errors::{error_matches, Error, ErrorView};
use crate::paths::{
    extension, extension_of, file_name, file_name_of, full_path, joined, parent, parent_of,
    with_extension, with_extension_of,
};
use crate::processor::{
    apply_processors_on, lemma_day_is_idle, matched_part, parse_file, processed_name,
    rule_depends_on_day,
};
use crate::rules::{FormatConversion, FormatConversionView, Rule, RuleView};
use crate::text::{chars_of, same_chars};
use crate::transformer::TransformResult;

verus! {

/// The path that a file has and the path that it is to have.
#[derive(Debug)]
pub struct PathResult {
    /// The path of the file.
    pub source_path: String,
    /// The path that the file is to have.
    pub target_path: String,
    /// The rule that applies.
    pub rule: Rule,
}

/// The kinds of conversion.
#[derive(Debug, Clone, Copy, PartialEq, Eq, Structural)]
pub enum ConversionKind {
    /// From one image format to another.
    Image,
    /// From one text encoding to another.
    Text,
}

/// The text encodings that a conversion can name.
#[derive(Debug, Clone, Copy, PartialEq, Eq, Structural)]
pub enum TextEncoding {
    Utf8,
    Utf16Le,
    Utf16Be,
    Windows1252,
}

/// The paths of a file once its conversion is decided.
#[derive(Debug)]
pub struct ConversionResult {
    /// The path of the file.
    pub source_path: String,
    /// The path that the file is to have.
    pub target_path: String,
    /// The rule that applies.
    pub rule: Rule,
    /// The conversion that the caller is to carry out, if any.
    pub conversion: Option<ConversionKind>,
}

/// What is done with a file once its destination is known.
#[derive(Debug, Clone, Copy, PartialEq, Eq, Structural)]
pub enum FileStep {
    /// The file stays where it is: the run is without effect.
    Nothing,
    /// The file is copied to its destination.
    Copy,
    /// The file is moved to its destination.
    Move,
}

/// What the caller is to do for a file.
#[derive(Debug)]
pub struct FileAction {
    /// The directory to make first, if it is not there. Empty where the
    /// destination is a single name.
    pub directory: String,
    /// What to do with the file then.
    pub step: FileStep,
}

/// What became of a file.
#[derive(Debug, PartialEq, Eq)]
pub struct FileActionResult {
    /// The path that the file had.
    pub source_path: String,
    /// The path that the file has now.
    pub target_path: String,
    /// Whether the file was moved or copied.
    pub success: bool,
}

/// `f` names an image format that can be converted.
pub open spec fn is_image_format(f: Seq<char>) -> bool {
    f == "jpg"@ || f == "jpeg"@ || f == "png"@ || f == "gif"@ || f == "webp"@ || f == "bmp"@ || f
        == "tiff"@
}

/// `f` names a text encoding that can be converted.
pub open spec fn is_text_encoding(f: Seq<char>) -> bool {
    encoding_of(f) is Some
}

/// The text encoding that `f` names.
pub open spec fn encoding_of(f: Seq<char>) -> Option<TextEncoding> {
    if f == "utf-8"@ {
        Some(TextEncoding::Utf8)
    } else if f == "utf-16"@ || f == "utf-16le"@ {
        Some(TextEncoding::Utf16Le)
    } else if f == "utf-16be"@ {
        Some(TextEncoding::Utf16Be)
    } else if f == "iso-8859-1"@ || f == "windows-1252"@ {
        Some(TextEncoding::Windows1252)
    } else {
        None
    }
}

/// The extension of a path, or the empty text where it has none.
pub open spec fn extension_or_empty(path: Seq<char>) -> Seq<char> {
    match extension_of(path) {
        Some(ext) => ext,
        None => Seq::empty(),
    }
}

/// Whether the conversion `c` applies to the file at `source`: it converts
/// from an image format and the file has the extension of an image format,
/// or it converts from a text encoding.
pub open spec fn conversion_applies(c: FormatConversionView, source: Seq<char>) -> bool {
    (is_image_format(c.source_format) && is_image_format(extension_or_empty(source)))
        || is_text_encoding(c.source_format)
}

/// The kind of the conversion `c`: both of its formats are image formats, or
/// both are text encodings. Any other conversion has no kind.
pub open spec fn kind_of(c: FormatConversionView) -> Option<ConversionKind> {
    if is_image_format(c.source_format) && is_image_format(c.target_format) {
        Some(ConversionKind::Image)
    } else if is_text_encoding(c.source_format) && is_text_encoding(c.target_format) {
        Some(ConversionKind::Text)
    } else {
        None
    }
}

/// The conversion of a rule, if it has one.
pub open spec fn conversion_of(rule: RuleView) -> Option<FormatConversionView> {
    match rule.processors {
        Some(p) => p.format_conversion,
        None => None,
    }
}

/// What is decided of the conversion of the file at `source` with the
/// destination `target` under `rule`: the destination, which takes the
/// extension of the target format where an image is converted, and the kind
/// of conversion to carry out; or the error of a conversion that applies and
/// has no kind.
pub open spec fn conversion_decided(source: Seq<char>, target: Seq<char>, rule: RuleView) -> Result<
    (Seq<char>, Option<ConversionKind>),
    ErrorView,
> {
    match conversion_of(rule) {
        Some(c) => if conversion_applies(c, source) {
            match kind_of(c) {
                Some(ConversionKind::Image) => Ok(
                    (with_extension_of(target, c.target_format), Some(ConversionKind::Image)),
                ),
                Some(ConversionKind::Text) => Ok((target, Some(ConversionKind::Text))),
                None => Err(
                    ErrorView::Generic {
                        message: "Unsupported conversion from "@ + c.source_format + " to "@
                            + c.target_format,
                    },
                ),
            }
        } else {
            Ok((target, None))
        },
        None => Ok((target, None)),
    }
}

/// The destination of the file at `source` in the directory `target_dir`
/// under `rule`, when today is day `day`.
pub open spec fn generated_path(source: Seq<char>, target_dir: Seq<char>, rule: RuleView, day: int) -> Result<
    Seq<char>,
    ErrorView,
> {
    match file_name_of(source) {
        None => Err(
            ErrorView::Generic { message: "Failed to get filename from path: "@ + source },
        ),
        Some(name) => match matched_part(name, rule.new_pattern) {
            Err(e) => Err(e),
            Ok(part) => {
                let processed = match rule.processors {
                    Some(p) => processed_name(part, p, day),
                    None => Ok(part),
                };
                match processed {
                    Err(e) => Err(e),
                    Ok(new_name) => Ok(joined(target_dir, new_name)),
                }
            },
        },
    }
}

/// Whether a result of [`generate_destination_path`] is the given destination.
pub open spec fn path_result_is(
    r: Result<PathResult, Error>,
    found: &TransformResult,
    expected: Result<Seq<char>, ErrorView>,
) -> bool {
    match expected {
        Ok(target) => r is Ok && r->Ok_0.source_path@ == found.source_path@
            && r->Ok_0.target_path@ == target && r->Ok_0.rule@ == found.rule@,
        Err(e) => r is Err && error_matches(r->Err_0@, e),
    }
}

/// A destination that does not depend on the day is the same on every day.
pub proof fn lemma_generated_day_is_idle(
    source: Seq<char>,
    target_dir: Seq<char>,
    rule: RuleView,
    day: int,
    other: int,
)
    requires
        !rule_depends_on_day(rule.processors),
    ensures
        generated_path(source, target_dir, rule, day) == generated_path(
            source,
            target_dir,
            rule,
            other,
        ),
{
    match file_name_of(source) {
        Some(name) => match matched_part(name, rule.new_pattern) {
            Ok(part) => {
                if rule.processors is Some {
                    lemma_day_is_idle(part, rule.processors->0, day, other);
                }
            },
            Err(_) => {},
        },
        None => {},
    }
}

/// Whether `f` names an image format that can be converted.
pub fn image_format(f: &str) -> (r: bool)
    ensures
        r == is_image_format(f@),
{
    let v = chars_of(f);
    same_chars(&v, &chars_of("jpg")) || same_chars(&v, &chars_of("jpeg")) || same_chars(
        &v,
        &chars_of("png"),
    ) || same_chars(&v, &chars_of("gif")) || same_chars(&v, &chars_of("webp")) || same_chars(
        &v,
        &chars_of("bmp"),
    ) || same_chars(&v, &chars_of("tiff"))
}

/// The text encoding that `f` names.
pub fn text_encoding(f: &str) -> (r: Option<TextEncoding>)
    ensures
        r == encoding_of(f@),
{
    let v = chars_of(f);
    if same_chars(&v, &chars_of("utf-8")) {
        Some(TextEncoding::Utf8)
    } else if same_chars(&v, &chars_of("utf-16")) || same_chars(&v, &chars_of("utf-16le")) {
        Some(TextEncoding::Utf16Le)
    } else if same_chars(&v, &chars_of("utf-16be")) {
        Some(TextEncoding::Utf16Be)
    } else if same_chars(&v, &chars_of("iso-8859-1")) || same_chars(
        &v,
        &chars_of("windows-1252"),
    ) {
        Some(TextEncoding::Windows1252)
    } else {
        None
    }
}

/// The kind of a conversion.
pub fn conversion_kind(conversion: &FormatConversion) -> (r: Option<ConversionKind>)
    ensures
        r == kind_of(conversion@),
{
    let source = conversion.source_format.as_str();
    let target = conversion.target_format.as_str();
    if image_format(source) && image_format(target) {
        Some(ConversionKind::Image)
    } else if text_encoding(source).is_some() && text_encoding(target).is_some() {
        Some(ConversionKind::Text)
    } else {
        None
    }
}

/// Whether a conversion applies to the file at `source`.
pub fn applies_to(conversion: &FormatConversion, source: &str) -> (r: bool)
    ensures
        r == conversion_applies(conversion@, source@),
{
    let ext = match extension(source) {
        Some(ext) => ext,
        None => String::new(),
    };
    (image_format(conversion.source_format.as_str()) && image_format(ext.as_str()))
        || text_encoding(conversion.source_format.as_str()).is_some()
}

/// The destination of a file, taking `day` for today: in the directory that
/// was found for it, the part of its name that the rule's template matches,
/// rewritten by the rule's processors.
pub fn generate_destination_path_on(transform_result: &TransformResult, day: i32) -> (r: Result<
    PathResult,
    Error,
>)
    ensures
        path_result_is(
            r,
            transform_result,
            generated_path(
                transform_result.source_path@,
                transform_result.target_dir@,
                transform_result.rule@,
                day as int,
            ),
        ),
{
    let rule = &transform_result.rule;
    let source_filename = match file_name(transform_result.source_path.as_str()) {
        Some(name) => name,
        None => {
            let message = String::from_str("Failed to get filename from path: ").concat(
                transform_result.source_path.as_str(),
            );
            return Err(Error::Generic { message });
        },
    };
    let mut processed_value = match parse_file(
        source_filename.as_str(),
        rule.new_pattern.as_str(),
    ) {
        Ok(part) => part,
        Err(e) => {
            return Err(e);
        },
    };
    if let Some(config_processor) = &rule.processors {
        match apply_processors_on(&mut processed_value, config_processor, day) {
            Ok(()) => {},
            Err(e) => {
                return Err(e);
            },
        }
    }
    let target_path = full_path(transform_result.target_dir.as_str(), processed_value.as_str());
    Ok(
        PathResult {
            source_path: transform_result.source_path.clone(),
            target_path,
            rule: rule.clone(),
        },
    )
}

/// The destination of a file. Where the rule's splitter is a date format,
/// the outcome is that of [`generate_destination_path_on`] on the day of the
/// call; otherwise it is the same on every day. Whether the file operations
/// are to be carried out makes no difference to the destination.
pub fn generate_destination_path(transform_result: &TransformResult, _run_execution: bool) -> (r:
    Result<PathResult, Error>)
    ensures
        exists|day: int|
            i32::MIN <= day <= i32::MAX && path_result_is(
                r,
                transform_result,
                #[trigger] generated_path(
                    transform_result.source_path@,
                    transform_result.target_dir@,
                    transform_result.rule@,
                    day,
                ),
            ),
        !rule_depends_on_day(transform_result.rule@.processors) ==> path_result_is(
            r,
            transform_result,
            generated_path(
                transform_result.source_path@,
                transform_result.target_dir@,
                transform_result.rule@,
                0,
            ),
        ),
{
    let day = today();
    let r = generate_destination_path_on(transform_result, day);
    proof {
        assert(path_result_is(
            r,
            transform_result,
            generated_path(
                transform_result.source_path@,
                transform_result.target_dir@,
                transform_result.rule@,
                day as int,
            ),
        ));
        if !rule_depends_on_day(transform_result.rule@.processors) {
            lemma_generated_day_is_idle(
                transform_result.source_path@,
                transform_result.target_dir@,
                transform_result.rule@,
                day as int,
                0,
            );
        }
    }
    r
}

/// Decides the conversion of a file: whether the conversion of its rule
/// applies to it, of what kind it is, and what destination the converted file
/// is to have. The source stays as it is; a caller that carries the conversion
/// out may put the converted file elsewhere first.
pub fn convert_file_format(path_result: &PathResult) -> (r: Result<ConversionResult, Error>)
    ensures
        match conversion_decided(
            path_result.source_path@,
            path_result.target_path@,
            path_result.rule@,
        ) {
            Ok((target, kind)) => r is Ok && r->Ok_0.source_path@ == path_result.source_path@
                && r->Ok_0.target_path@ == target && r->Ok_0.conversion == kind
                && r->Ok_0.rule@ == path_result.rule@,
            Err(e) => r is Err && r->Err_0@ == e,
        },
{
    let rule = &path_result.rule;
    let mut target_path = path_result.target_path.clone();
    let mut conversion: Option<ConversionKind> = None;
    if let Some(config_processor) = &rule.processors {
        if let Some(format_conversion) = &config_processor.format_conversion {
            if applies_to(format_conversion, path_result.source_path.as_str()) {
                match conversion_kind(format_conversion) {
                    Some(ConversionKind::Image) => {
                        target_path = with_extension(
                            path_result.target_path.as_str(),
                            format_conversion.target_format.as_str(),
                        );
                        conversion = Some(ConversionKind::Image);
                    },
                    Some(ConversionKind::Text) => {
                        conversion = Some(ConversionKind::Text);
                    },
                    None => {
                        let message = String::from_str("Unsupported conversion from ").concat(
                            format_conversion.source_format.as_str(),
                        ).concat(" to ").concat(format_conversion.target_format.as_str());
                        return Err(Error::Generic { message });
                    },
                }
            }
        }
    }
    Ok(
        ConversionResult {
            source_path: path_result.source_path.clone(),
            target_path,
            rule: rule.clone(),
            conversion,
        },
    )
}

/// What is done with a file under a rule that copies, or does not, in a run
/// that has effect, or has not.
pub open spec fn step_for(copy: bool, run_execution: bool) -> FileStep {
    if !run_execution {
        FileStep::Nothing
    } else if copy {
        FileStep::Copy
    } else {
        FileStep::Move
    }
}

/// What the caller is to do for a file whose conversion is decided: make
/// the directory of the destination, also in a run without effect, and then
/// copy or move the file as its rule says.
pub fn plan_file_action(conversion_result: &ConversionResult, run_execution: bool) -> (r:
    FileAction)
    ensures
        r.directory@ == parent_of(conversion_result.target_path@),
        r.step == step_for(conversion_result.rule.copy, run_execution),
{
    let directory = parent(conversion_result.target_path.as_str());
    let step = if !run_execution {
        FileStep::Nothing
    } else if conversion_result.rule.copy {
        FileStep::Copy
    } else {
        FileStep::Move
    };
    FileAction { directory, step }
}

} // verus!
