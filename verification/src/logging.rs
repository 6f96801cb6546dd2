//! Agent logging: the levels of its records and the checks that precede its set-up.

use vstd::prelude::*;

use std::path::PathBuf;

use tracing_subscriber::filter::ParseError;
use tracing_subscriber::EnvFilter;

use crate::directive::{is_sliceable, lemma_one_directive, sliceable};
use crate::paths;
use crate::paths::{has_parent, last_name, path_parts, path_text};
use crate::platform::IoError;

verus! {

/// The level of a log record.
#[derive(Debug, Clone, Copy, PartialEq, Eq, Structural)]
pub enum Level {
    /// Something failed.
    Error,
    /// Something may need attention.
    Warn,
    /// Everything is as it should be.
    Info,
}

/// Logging setup failures.
#[derive(Debug, PartialEq, Eq)]
pub enum LoggingError {
    /// The level filter is not a valid tracing directive.
    Filter(String),
    /// The log path has no parent directory or file name.
    Path(String),
    /// A global subscriber was already installed.
    AlreadyInitialised,
    /// The agent log could not be created or opened.
    Open(IoError),
}

/// The text that `{:?}` gives for a string: in quotes, with special characters escaped.
pub uninterp spec fn debug_text(text: Seq<char>) -> Seq<char>;

/// The standard library's `Debug` for `str`, through `format!`. Its text is a function of the
/// string.
#[verifier::external_body]
fn debug_string(text: &str) -> (quoted: String)
    ensures
        quoted@ == debug_text(text@),
{
    format!("{:?}", text)
}

/// The text of a logging error.
pub open spec fn logging_error_text(err: LoggingError) -> Seq<char> {
    match err {
        LoggingError::Filter(level) => "invalid log level "@ + debug_text(level@),
        LoggingError::Path(path) => "invalid agent log path "@ + debug_text(path@),
        LoggingError::AlreadyInitialised => "logging was already initialised"@,
        LoggingError::Open(source) => "opening the agent log: "@ + source.message@,
    }
}

/// The text of a logging error followed by that of its cause, where it has one.
pub open spec fn logging_error_chain(err: LoggingError) -> Seq<char> {
    match err {
        LoggingError::Open(source) => logging_error_text(err) + ": "@ + source.message@,
        _ => logging_error_text(err),
    }
}

impl LoggingError {
    /// The error as one line of text.
    pub fn message(&self) -> (text: String)
        ensures
            text@ == logging_error_text(*self),
    {
        match self {
            LoggingError::Filter(level) => {
                let mut text = "invalid log level ".to_owned();
                text.append(debug_string(level.as_str()).as_str());
                text
            },
            LoggingError::Path(path) => {
                let mut text = "invalid agent log path ".to_owned();
                text.append(debug_string(path.as_str()).as_str());
                text
            },
            LoggingError::AlreadyInitialised => "logging was already initialised".to_owned(),
            LoggingError::Open(source) => {
                let mut text = "opening the agent log: ".to_owned();
                text.append(source.message.as_str());
                text
            },
        }
    }

    /// The error and its cause, where it has one, as one line of text.
    pub fn chain(&self) -> (text: String)
        ensures
            text@ == logging_error_chain(*self),
    {
        let mut text = self.message();
        match self {
            LoggingError::Open(source) => {
                text.append(": ");
                text.append(source.message.as_str());
            },
            _ => {},
        }
        text
    }
}

/// tracing-subscriber's filter.
#[verifier::external_type_specification]
#[verifier::external_body]
pub struct ExEnvFilter(tracing_subscriber::EnvFilter);

/// tracing-subscriber's error for a directive that it cannot read.
#[verifier::external_type_specification]
#[verifier::external_body]
pub struct ExParseError(tracing_subscriber::filter::ParseError);

/// The text that a filter was made of.
pub uninterp spec fn filter_directives(filter: EnvFilter) -> Seq<char>;

/// Whether a text is one that `EnvFilter::try_new` accepts.
pub uninterp spec fn is_filter(directives: Seq<char>) -> bool;

/// A text of ASCII letters and digits alone, such as the name of a level.
pub open spec fn is_word(text: Seq<char>) -> bool {
    forall|i: int|
        0 <= i < text.len() ==> {
            let c = #[trigger] text[i];
            'a' <= c <= 'z' || 'A' <= c <= 'Z' || '0' <= c <= '9'
        }
}

/// A text that opens a span with `[` and never ends it.
pub open spec fn is_unclosed_span(text: Seq<char>) -> bool {
    &&& text.len() > 0
    &&& text[0] == '['
    &&& forall|i: int|
        0 <= i < text.len() ==> {
            let c = #[trigger] text[i];
            c != ']' && c != '{' && c != ','
        }
}

/// `EnvFilter::try_new` makes a filter of a comma-separated list of directives. Whether it
/// accepts a text is a function of the text: a bare word always passes, as a level or as a
/// target, and a span that is never closed does not. A text that it cannot take apart is left
/// out, since it panics on some of those.
#[verifier::external_body]
fn parse_filter(directives: &str) -> (filter: Result<EnvFilter, ParseError>)
    requires
        is_sliceable(directives@),
    ensures
        filter is Ok <==> is_filter(directives@),
        filter matches Ok(f) ==> filter_directives(f) == directives@,
        is_word(directives@) ==> filter is Ok,
        is_unclosed_span(directives@) ==> filter is Err,
{
    EnvFilter::try_new(directives)
}

/// A text that the filter's reader can take apart and accepts.
pub open spec fn is_valid_level(level: Seq<char>) -> bool {
    is_sliceable(level) && is_filter(level)
}

/// The filter for the agent's log, once the level and the log's path have been found valid. A
/// level that the filter's reader cannot take apart is not valid.
pub fn checked_filter(agent_log: &PathBuf, level: &str) -> (filter: Result<EnvFilter, LoggingError>)
    ensures
        match filter {
            Ok(f) => is_valid_level(level@) && filter_directives(f) == level@ && has_parent(
                path_parts(*agent_log),
            ) && last_name(path_parts(*agent_log)) is Some,
            Err(LoggingError::Filter(text)) => !is_valid_level(level@) && text@ == level@,
            Err(LoggingError::Path(text)) => is_valid_level(level@) && !(has_parent(
                path_parts(*agent_log),
            ) && last_name(path_parts(*agent_log)) is Some) && text@ == path_text(*agent_log),
            Err(_) => false,
        },
        is_word(level@) ==> !(filter matches Err(LoggingError::Filter(_))),
        is_unclosed_span(level@) ==> filter matches Err(LoggingError::Filter(_)),
{
    proof {
        if is_word(level@) {
            if level@.contains(',') {
                let i = level@.index_of(',');
                assert(level@[i] == ',');
            }
            lemma_one_directive(level@);
        }
    }
    if !sliceable(level) {
        return Err(LoggingError::Filter(level.to_owned()));
    }
    let filter = match parse_filter(level) {
        Ok(filter) => filter,
        Err(_) => {
            return Err(LoggingError::Filter(level.to_owned()));
        },
    };
    if paths::parent(agent_log).is_none() || paths::file_name(agent_log).is_none() {
        return Err(LoggingError::Path(paths::display(agent_log)));
    }
    Ok(filter)
}

} // verus!
