//! The log output format of the services.

use vstd::prelude::*;
use crate::text::str_eq;

verus! {

/// Supported log output formats.
#[derive(Clone, Copy, Debug, PartialEq, Eq, Structural)]
pub enum LogFormat {
    /// Newline-delimited JSON.
    Json,
    /// Human-readable text.
    Text,
}

/// Name for what `str::to_lowercase` gives for a text (Unicode lowercase
/// mapping).
pub uninterp spec fn unicode_lowercase(s: Seq<char>) -> Seq<char>;

/// `str::to_lowercase`.
#[verifier::external_body]
fn to_lowercase(s: &str) -> (r: String)
    ensures
        r@ == unicode_lowercase(s@),
{
    s.to_lowercase()
}

/// The format a lowercased setting names: text for `text` or `pretty`, JSON
/// for anything else.
pub open spec fn spec_format_of_lowered(lowered: Seq<char>) -> LogFormat {
    if lowered == "text"@ || lowered == "pretty"@ {
        LogFormat::Text
    } else {
        LogFormat::Json
    }
}

/// The format a `LOG_FORMAT` setting selects: text for `text` or `pretty`
/// (in any case), JSON for anything else and when it is unset.
pub open spec fn spec_log_format(setting: Option<Seq<char>>) -> LogFormat {
    match setting {
        Some(v) => spec_format_of_lowered(unicode_lowercase(v)),
        None => LogFormat::Json,
    }
}

impl LogFormat {
    /// The format selected by the value of `LOG_FORMAT` (absent when the
    /// variable is unset or not Unicode).
    pub fn from_setting(setting: Option<&str>) -> (f: LogFormat)
        ensures
            f == spec_log_format(match setting {
                Some(v) => Some(v@),
                None => None::<Seq<char>>,
            }),
    {
        match setting {
            None => LogFormat::Json,
            Some(v) => {
                let lower = to_lowercase(v);
                LogFormat::from_lowered(lower.as_str())
            },
        }
    }

    /// The format a setting names once lowercased.
    pub fn from_lowered(lowered: &str) -> (f: LogFormat)
        ensures
            f == spec_format_of_lowered(lowered@),
    {
        if str_eq(lowered, "text") || str_eq(lowered, "pretty") {
            LogFormat::Text
        } else {
            LogFormat::Json
        }
    }
}

} // verus!
