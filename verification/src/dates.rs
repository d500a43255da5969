//! Dates in file names.
//!
//! A file name may begin with a Unix timestamp. The date processor splits the
//! name, writes the timestamp as a date in the rule's format and joins the
//! date to the rest of the name. Calendar arithmetic and date formats are
//! those of the `chrono` crate.

use vstd::prelude::*;
use vstd::string::*;
use crate::content::Timestamp;
use crate::errors::{generic_error, Error, ErrorView};
use crate::numbers::{
    i64_failure, i64_failure_text, i64_of_text, parse_i64, signed_decimal, signed_decimal_text,
};
use crate::text::{
    chars_of, contains, contains_sub, find_from, find_sub, occurs_at, slice_of, string_of,
};

verus! {

/// The moment `secs` seconds after the start of 1970 in UTC, written in the
/// `chrono` format `format`; nothing where `chrono` has no such moment or
/// cannot write it in that format.
pub uninterp spec fn timestamp_text(secs: int, format: Seq<char>) -> Option<Seq<char>>;

/// Day number `day` of the proleptic Gregorian calendar (1 January of the
/// year 1 is day 1), written in the `chrono` format `format`; nothing where
/// `chrono` has no such day or cannot write it in that format.
pub uninterp spec fn day_text(day: int, format: Seq<char>) -> Option<Seq<char>>;

/// The moment that `text` names as an RFC 3339 date and time, in whole
/// seconds since the start of 1970 in UTC and nanoseconds into the second;
/// nothing where `chrono` does not read `text` as such a date.
pub uninterp spec fn rfc3339_instant(text: Seq<char>) -> Option<(i64, u32)>;

/// Reads an RFC 3339 date and time with `chrono::DateTime::parse_from_rfc3339`
/// and returns its moment as `DateTime::timestamp` and
/// `DateTime::timestamp_subsec_nanos` give it.
#[verifier::external_body]
pub(crate) fn parse_rfc3339(text: &str) -> (r: Option<Timestamp>)
    ensures
        match r {
            Some(moment) => rfc3339_instant(text@) == Some((moment.secs, moment.nanos)),
            None => rfc3339_instant(text@) is None,
        },
{
    match chrono::DateTime::parse_from_rfc3339(text) {
        Ok(moment) => Some(
            Timestamp { secs: moment.timestamp(), nanos: moment.timestamp_subsec_nanos() },
        ),
        Err(_) => None,
    }
}

/// Writes a Unix timestamp as a date. The moment comes from
/// `chrono::TimeZone::timestamp_opt` on `Utc` with no nanoseconds, and is
/// written through `DateTime::format` and `DelayedFormat::write_to`. Nothing
/// is returned where the timestamp is out of `chrono`'s range or the format
/// cannot be written.
#[verifier::external_body]
pub(crate) fn format_timestamp(secs: i64, format: &str) -> (r: Option<String>)
    ensures
        match r {
            Some(text) => timestamp_text(secs as int, format@) == Some(text@),
            None => timestamp_text(secs as int, format@) is None,
        },
{
    let moment = chrono::TimeZone::timestamp_opt(&chrono::Utc, secs, 0).single()?;
    let mut out = String::new();
    moment.format(format).write_to(&mut out).ok()?;
    Some(out)
}

/// Writes a day of the calendar. The day comes from
/// `chrono::NaiveDate::from_num_days_from_ce_opt`, and is written through
/// `NaiveDate::format` and `DelayedFormat::write_to`. Nothing is returned
/// where the day is out of `chrono`'s range or the format cannot be written.
#[verifier::external_body]
pub(crate) fn format_day(day: i32, format: &str) -> (r: Option<String>)
    ensures
        match r {
            Some(text) => day_text(day as int, format@) == Some(text@),
            None => day_text(day as int, format@) is None,
        },
{
    let date = chrono::NaiveDate::from_num_days_from_ce_opt(day)?;
    let mut out = String::new();
    date.format(format).write_to(&mut out).ok()?;
    Some(out)
}

/// The number of today's day in UTC, from `chrono::Utc::now`, counted as
/// `chrono::Datelike::num_days_from_ce` counts. It differs from call to call,
/// so nothing is said of it.
#[verifier::external_body]
pub(crate) fn today() -> i32 {
    chrono::Datelike::num_days_from_ce(&chrono::Utc::now().date_naive())
}

/// Searching back from `day`, one day at a time: the text of the latest day
/// that, written in the format `splitter`, occurs in `name`.
pub open spec fn dated_separator(name: Seq<char>, splitter: Seq<char>, day: int) -> Option<
    Seq<char>,
>
    decreases day - i32::MIN + 1,
{
    if day < i32::MIN || day > i32::MAX {
        None
    } else {
        match day_text(day, splitter) {
            None => None,
            Some(written) => if contains_sub(name, written) {
                Some(written)
            } else {
                dated_separator(name, splitter, day - 1)
            },
        }
    }
}

/// The text at which `name` is split: `splitter` itself, or, where it holds a
/// `%` and so is a date format, the latest date up to `day` that occurs in
/// `name`.
pub open spec fn separator_for(name: Seq<char>, splitter: Seq<char>, day: int) -> Option<
    Seq<char>,
> {
    if splitter.contains('%') {
        dated_separator(name, splitter, day)
    } else {
        Some(splitter)
    }
}

/// The first two of the parts into which `sep` splits `name`: what stands
/// before its first occurrence, and what stands between that and the next
/// one, or the end. Nothing where `sep` does not occur.
pub open spec fn first_two_parts(name: Seq<char>, sep: Seq<char>) -> Option<
    (Seq<char>, Seq<char>),
> {
    match find_sub(name, sep, 0) {
        None => None,
        Some(i) => {
            let from = i + sep.len();
            let to = match find_sub(name, sep, from) {
                Some(j) => j,
                None => name.len() as int,
            };
            Some((name.subrange(0, i), name.subrange(from, to)))
        },
    }
}

/// What the date processor makes of `name` when today is day `day`: the new
/// name, or the error that it reports.
pub open spec fn dated_name(
    name: Seq<char>,
    format: Seq<char>,
    splitter: Seq<char>,
    merger: Option<Seq<char>>,
    day: int,
) -> Result<Seq<char>, ErrorView> {
    match separator_for(name, splitter, day) {
        None => Err(ErrorView::Generic { message: "Failed to decrement date"@ }),
        Some(sep) => match first_two_parts(name, sep) {
            None => Err(
                ErrorView::Generic {
                    message: "Failed to split destination '"@ + name + "' with splitter '"@
                        + splitter + "'"@,
                },
            ),
            Some((head, tail)) => match i64_of_text(head) {
                None => Err(
                    ErrorView::Generic {
                        message: "Failed to parse timestamp '"@ + head + "': "@
                            + i64_failure_text(head),
                    },
                ),
                Some(secs) => match timestamp_text(secs as int, format) {
                    None => Err(
                        ErrorView::Generic {
                            message: "Invalid timestamp: "@ + signed_decimal_text(secs as int),
                        },
                    ),
                    Some(date) => match merger {
                        None => Err(
                            ErrorView::Generic {
                                message: "Merger string is required but not provided"@,
                            },
                        ),
                        Some(joint) => Ok(date + joint + tail),
                    },
                },
            },
        },
    }
}

/// Whether `c` occurs in `text`.
pub fn has_char(text: &Vec<char>, c: char) -> (r: bool)
    ensures
        r == text@.contains(c),
{
    let mut i: usize = 0;
    while i < text.len()
        invariant
            i <= text.len(),
            forall|k: int| 0 <= k < i ==> text@[k] != c,
        decreases text.len() - i,
    {
        if text[i] == c {
            return true;
        }
        i += 1;
    }
    false
}

/// Finds the text at which a name is split.
pub fn find_separator(name: &Vec<char>, splitter: &str, day: i32) -> (r: Option<Vec<char>>)
    ensures
        match r {
            Some(sep) => separator_for(name@, splitter@, day as int) == Some(sep@),
            None => separator_for(name@, splitter@, day as int) is None,
        },
{
    let pattern = chars_of(splitter);
    if !has_char(&pattern, '%') {
        return Some(pattern);
    }
    let mut current: i32 = day;
    loop
        invariant
            splitter@.contains('%'),
            dated_separator(name@, splitter@, day as int) == dated_separator(
                name@,
                splitter@,
                current as int,
            ),
        decreases current - i32::MIN,
    {
        match format_day(current, splitter) {
            None => {
                return None;
            },
            Some(written) => {
                let written_chars = chars_of(written.as_str());
                if contains(name, &written_chars) {
                    return Some(written_chars);
                }
                if current == i32::MIN {
                    assert(dated_separator(name@, splitter@, current - 1) is None);
                    return None;
                }
                current = current - 1;
            },
        }
    }
}

/// Splits `name` on `sep` and returns the first two parts.
pub fn split_first_two(name: &Vec<char>, sep: &Vec<char>) -> (r: Option<(Vec<char>, Vec<char>)>)
    ensures
        match r {
            Some((head, tail)) => first_two_parts(name@, sep@) == Some((head@, tail@)),
            None => first_two_parts(name@, sep@) is None,
        },
{
    match find_from(name, sep, 0) {
        None => None,
        Some(i) => {
            proof {
                crate::text::lemma_find_sub_first(name@, sep@, 0);
                assert(occurs_at(name@, sep@, i as int));
            }
            let total: usize = name.len();
            assert(i + sep@.len() <= total);
            let from: usize = i + sep.len();
            let to: usize = match find_from(name, sep, from) {
                Some(j) => {
                    proof {
                        crate::text::lemma_find_sub_first(name@, sep@, from as int);
                    }
                    j
                },
                None => total,
            };
            let head = slice_of(name, 0, i);
            let tail = slice_of(name, from, to);
            Some((head, tail))
        },
    }
}

/// Rewrites `destination` as the date processor does, taking `day` for
/// today: the name is split, its first part is read as a Unix timestamp and
/// written in the format `fmt`, and the date is joined to the second part
/// with `merger` between them. On an error the name is left as it was.
pub fn process_date_on(
    destination: &mut String,
    fmt: &str,
    splitter: &str,
    merger: &Option<String>,
    day: i32,
) -> (r: Result<(), Error>)
    ensures
        match dated_name(old(destination)@, fmt@, splitter@, merger.deep_view(), day as int) {
            Ok(name) => r is Ok && final(destination)@ == name,
            Err(e) => r is Err && r->Err_0@ == e && final(destination)@ == old(destination)@,
        },
{
    let name = chars_of(destination.as_str());
    let sep = match find_separator(&name, splitter, day) {
        Some(sep) => sep,
        None => {
            return Err(generic_error("Failed to decrement date"));
        },
    };
    let (head, tail) = match split_first_two(&name, &sep) {
        Some(parts) => parts,
        None => {
            let message = String::from_str("Failed to split destination '").concat(
                destination.as_str(),
            ).concat("' with splitter '").concat(splitter).concat("'");
            return Err(Error::Generic { message });
        },
    };
    let head_text = string_of(&head);
    let secs = match parse_i64(head_text.as_str()) {
        Some(secs) => secs,
        None => {
            let cause = i64_failure(head_text.as_str());
            let message = String::from_str("Failed to parse timestamp '").concat(
                head_text.as_str(),
            ).concat("': ").concat(cause.as_str());
            return Err(Error::Generic { message });
        },
    };
    let date = match format_timestamp(secs, fmt) {
        Some(date) => date,
        None => {
            let number = signed_decimal(secs);
            let message = String::from_str("Invalid timestamp: ").concat(number.as_str());
            return Err(Error::Generic { message });
        },
    };
    let joint = match merger {
        Some(joint) => joint,
        None => {
            return Err(generic_error("Merger string is required but not provided"));
        },
    };
    let tail_text = string_of(&tail);
    *destination = date.concat(joint.as_str()).concat(tail_text.as_str());
    Ok(())
}

/// Rewrites `destination` as the date processor does. Where `splitter` holds
/// no `%`, the outcome is that of [`process_date_on`] on any day; where it
/// does, it is that of [`process_date_on`] on the day of the call.
pub fn process_date(
    destination: &mut String,
    fmt: &str,
    splitter: &str,
    merger: &Option<String>,
) -> (r: Result<(), Error>)
    ensures
        exists|day: int|
            i32::MIN <= day <= i32::MAX && match #[trigger] dated_name(
                old(destination)@,
                fmt@,
                splitter@,
                merger.deep_view(),
                day,
            ) {
                Ok(name) => r is Ok && final(destination)@ == name,
                Err(e) => r is Err && r->Err_0@ == e && final(destination)@ == old(
                    destination,
                )@,
            },
        !splitter@.contains('%') ==> match dated_name(
            old(destination)@,
            fmt@,
            splitter@,
            merger.deep_view(),
            0,
        ) {
            Ok(name) => r is Ok && final(destination)@ == name,
            Err(e) => r is Err && r->Err_0@ == e && final(destination)@ == old(destination)@,
        },
{
    let day = today();
    let r = process_date_on(destination, fmt, splitter, merger, day);
    proof {
        assert(dated_name(old(destination)@, fmt@, splitter@, merger.deep_view(), day as int)
            == dated_name(old(destination)@, fmt@, splitter@, merger.deep_view(), day as int));
        if !splitter@.contains('%') {
            assert(separator_for(old(destination)@, splitter@, day as int) == separator_for(
                old(destination)@,
                splitter@,
                0,
            ));
        }
    }
    r
}

} // verus!
