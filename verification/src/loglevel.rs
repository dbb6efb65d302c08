//! The severities at which the server can be asked to log.

use crate::argparser::FromArg;
use std::str::FromStr;
use vstd::prelude::*;

verus! {

/// How much the server logs, from the least to the most talkative.
#[derive(Debug, Clone, Copy, PartialEq, Eq, Structural)]
pub enum LogLevel {
    Error,
    Warn,
    Info,
    Debug,
    Trace,
}

impl View for LogLevel {
    type V = LogLevel;

    open spec fn view(&self) -> LogLevel {
        *self
    }
}

/// The level that `tracing` reads out of a token, as
/// `<tracing::Level as FromStr>::from_str` decides it; `None` where it returns
/// an error. The result depends on the token alone.
pub uninterp spec fn level_of_token(token: Seq<char>) -> Option<LogLevel>;

/// Calls `<tracing::Level as FromStr>::from_str` on `token`. Trusted: that the
/// answer is a function of the token's characters, named `level_of_token`,
/// with each of the five constants of `tracing::Level` told as the variant of
/// the same name and an error told as `None`.
#[verifier::external_body]
fn parse_level(token: &str) -> (level: Option<LogLevel>)
    ensures
        level == level_of_token(token@),
{
    match tracing::Level::from_str(token) {
        Ok(tracing::Level::ERROR) => Some(LogLevel::Error),
        Ok(tracing::Level::WARN) => Some(LogLevel::Warn),
        Ok(tracing::Level::INFO) => Some(LogLevel::Info),
        Ok(tracing::Level::DEBUG) => Some(LogLevel::Debug),
        Ok(tracing::Level::TRACE) => Some(LogLevel::Trace),
        Err(_) => None,
    }
}

impl FromArg for LogLevel {
    open spec fn converted(token: Seq<char>) -> Option<LogLevel> {
        level_of_token(token)
    }

    fn from_arg(token: &str) -> (value: Option<LogLevel>) {
        parse_level(token)
    }
}

} // verus!
