//! Choosing how much to log from the name of a level.
use vstd::prelude::*;
use vstd::string::*;

verus! {

/// How much to log.
#[derive(Clone, Copy, Debug, PartialEq, Eq, Structural)]
pub enum LogLevel {
    Trace,
    Debug,
    Info,
    Warn,
    Error,
}

/// The lowercase form of `s`, as std's `str::to_lowercase` makes it.
pub uninterp spec fn lowercase_of(s: Seq<char>) -> Seq<char>;

/// Lowercases with std's `str::to_lowercase`.
/// Claimed: the result is `lowercase_of` the text, a function of the text alone (std applies
/// the Unicode lowercase mapping, independent of locale).
#[verifier::external_body]
fn to_lowercase(s: &str) -> (r: String)
    ensures
        r@ == lowercase_of(s@),
{
    s.to_lowercase()
}

/// The level a lowercase name selects; other names turn logging off.
pub open spec fn spec_level(name: Seq<char>) -> Option<LogLevel> {
    if name == "trace"@ {
        Some(LogLevel::Trace)
    } else if name == "debug"@ {
        Some(LogLevel::Debug)
    } else if name == "info"@ {
        Some(LogLevel::Info)
    } else if name == "warn"@ {
        Some(LogLevel::Warn)
    } else if name == "error"@ {
        Some(LogLevel::Error)
    } else {
        None
    }
}

/// The level that a lowercase name selects, or `None` (logging disabled).
pub fn level_from_lowercase(name: &String) -> (r: Option<LogLevel>)
    ensures
        r == spec_level(name@),
{
    if *name == String::from_str("trace") {
        Some(LogLevel::Trace)
    } else if *name == String::from_str("debug") {
        Some(LogLevel::Debug)
    } else if *name == String::from_str("info") {
        Some(LogLevel::Info)
    } else if *name == String::from_str("warn") {
        Some(LogLevel::Warn)
    } else if *name == String::from_str("error") {
        Some(LogLevel::Error)
    } else {
        None
    }
}

/// The level that the setting `value` selects, in any letter case; `None` disables logging.
pub fn level_from_setting(value: &str) -> (r: Option<LogLevel>)
    ensures
        r == spec_level(lowercase_of(value@)),
{
    let lowered = to_lowercase(value);
    level_from_lowercase(&lowered)
}

} // verus!
