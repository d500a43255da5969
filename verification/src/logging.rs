//! How much the program says.

use vstd::prelude::*;
use vstd::string::*;
use crate::text::{chars_of, same_chars};

verus! {

/// How much is logged, from the least to the most.
#[derive(Debug, Clone, Copy, PartialEq, Eq, Structural)]
pub enum LogLevel {
    /// Errors only.
    Error,
    /// Warnings and errors.
    Warning,
    /// Information, warnings and errors.
    Info,
    /// All of that, and what helps to find a fault.
    Debug,
    /// Everything.
    Trace,
}

/// The level filter of the `log` crate, carried as it is.
#[verifier::external_type_specification]
#[verifier::external_body]
pub struct ExLevelFilter(log::LevelFilter);

/// The number that the `log` crate gives a level filter: 0 for `Off`, then 1
/// for `Error` up to 5 for `Trace`.
pub uninterp spec fn filter_number(filter: log::LevelFilter) -> int;

/// `c` as a small letter, where it is the capital of a letter that occurs in
/// the name of a level; any other character as it is.
pub open spec fn lower_char(c: char) -> char {
    if c == 'A' {
        'a'
    } else if c == 'B' {
        'b'
    } else if c == 'D' {
        'd'
    } else if c == 'E' {
        'e'
    } else if c == 'F' {
        'f'
    } else if c == 'G' {
        'g'
    } else if c == 'I' {
        'i'
    } else if c == 'N' {
        'n'
    } else if c == 'O' {
        'o'
    } else if c == 'R' {
        'r'
    } else if c == 'T' {
        't'
    } else if c == 'U' {
        'u'
    } else if c == 'W' {
        'w'
    } else if c == 'C' {
        'c'
    } else {
        c
    }
}

/// The level that a word names, whatever the case of the letters that occur
/// in the names of levels.
pub open spec fn level_named(word: Seq<char>) -> Option<LogLevel> {
    let w = word.map_values(|c: char| lower_char(c));
    if w == "error"@ {
        Some(LogLevel::Error)
    } else if w == "warn"@ || w == "warning"@ {
        Some(LogLevel::Warning)
    } else if w == "info"@ {
        Some(LogLevel::Info)
    } else if w == "debug"@ {
        Some(LogLevel::Debug)
    } else if w == "trace"@ {
        Some(LogLevel::Trace)
    } else {
        None
    }
}

/// `c` as a small letter, as [`lower_char`] has it.
fn to_lower(c: char) -> (r: char)
    ensures
        r == lower_char(c),
{
    if c == 'A' {
        'a'
    } else if c == 'B' {
        'b'
    } else if c == 'D' {
        'd'
    } else if c == 'E' {
        'e'
    } else if c == 'F' {
        'f'
    } else if c == 'G' {
        'g'
    } else if c == 'I' {
        'i'
    } else if c == 'N' {
        'n'
    } else if c == 'O' {
        'o'
    } else if c == 'R' {
        'r'
    } else if c == 'T' {
        't'
    } else if c == 'U' {
        'u'
    } else if c == 'W' {
        'w'
    } else if c == 'C' {
        'c'
    } else {
        c
    }
}

impl LogLevel {
    /// The level that `s` names: `error`, `warn` or `warning`, `info`,
    /// `debug` or `trace`, in capital or small letters. Any other word is an
    /// error that says which word it was.
    pub fn parse(s: &str) -> (r: Result<LogLevel, String>)
        ensures
            match level_named(s@) {
                Some(level) => r == Ok::<LogLevel, String>(level),
                None => r is Err && r->Err_0@ == "Unknown verbosity level: "@ + s@,
            },
    {
        let word = chars_of(s);
        let mut w: Vec<char> = Vec::new();
        let mut i: usize = 0;
        while i < word.len()
            invariant
                i <= word.len(),
                w.len() == i,
                forall|k: int| 0 <= k < i ==> w@[k] == lower_char(word@[k]),
            decreases word.len() - i,
        {
            w.push(to_lower(word[i]));
            i += 1;
        }
        assert(w@ =~= s@.map_values(|c: char| lower_char(c)));
        if same_chars(&w, &chars_of("error")) {
            Ok(LogLevel::Error)
        } else if same_chars(&w, &chars_of("warn")) || same_chars(&w, &chars_of("warning")) {
            Ok(LogLevel::Warning)
        } else if same_chars(&w, &chars_of("info")) {
            Ok(LogLevel::Info)
        } else if same_chars(&w, &chars_of("debug")) {
            Ok(LogLevel::Debug)
        } else if same_chars(&w, &chars_of("trace")) {
            Ok(LogLevel::Trace)
        } else {
            Err(String::from_str("Unknown verbosity level: ").concat(s))
        }
    }

    /// The level for a flag that was given `occurrences` times: information
    /// for none, what helps to find a fault for one, everything for more.
    pub fn from_occurrences(occurrences: u8) -> (r: LogLevel)
        ensures
            r == if occurrences == 0 {
                LogLevel::Info
            } else if occurrences == 1 {
                LogLevel::Debug
            } else {
                LogLevel::Trace
            },
    {
        if occurrences == 0 {
            LogLevel::Info
        } else if occurrences == 1 {
            LogLevel::Debug
        } else {
            LogLevel::Trace
        }
    }

    /// The level filter of the `log` crate for this level: `LevelFilter::Error`
    /// for `Error`, `Warn` for `Warning`, `Info`, `Debug` and `Trace` for the
    /// levels of those names. The number of the filter is the rank of the level.
    #[verifier::external_body]
    pub fn to_level_filter(&self) -> (r: log::LevelFilter)
        ensures
            filter_number(r) == match *self {
                LogLevel::Error => 1int,
                LogLevel::Warning => 2int,
                LogLevel::Info => 3int,
                LogLevel::Debug => 4int,
                LogLevel::Trace => 5int,
            },
    {
        match self {
            LogLevel::Error => log::LevelFilter::Error,
            LogLevel::Warning => log::LevelFilter::Warn,
            LogLevel::Info => log::LevelFilter::Info,
            LogLevel::Debug => log::LevelFilter::Debug,
            LogLevel::Trace => log::LevelFilter::Trace,
        }
    }

    /// How many kinds of message the level lets through: 1 for errors only, 5
    /// for everything.
    pub fn rank(&self) -> (r: u8)
        ensures
            r == match *self {
                LogLevel::Error => 1u8,
                LogLevel::Warning => 2u8,
                LogLevel::Info => 3u8,
                LogLevel::Debug => 4u8,
                LogLevel::Trace => 5u8,
            },
    {
        match self {
            LogLevel::Error => 1,
            LogLevel::Warning => 2,
            LogLevel::Info => 3,
            LogLevel::Debug => 4,
            LogLevel::Trace => 5,
        }
    }
}

impl std::str::FromStr for LogLevel {
    type Err = String;

    /// The level that `s` names, as [`LogLevel::parse`] reads it.
    fn from_str(s: &str) -> (r: Result<Self, Self::Err>)
        ensures
            match level_named(s@) {
                Some(level) => r == Ok::<LogLevel, String>(level),
                None => r is Err && r->Err_0@ == "Unknown verbosity level: "@ + s@,
            },
    {
        LogLevel::parse(s)
    }
}

} // verus!
