use vstd::prelude::*;
use crate::dispatch::Token;

verus! {

/// The level at which one dispatch outcome is reported on the log
/// stream. Reporting is a side effect owned by the caller; this module
/// only decides the classification, so the choice is verified and the
/// emission cannot affect the dispatch result.
#[derive(Clone, Copy, PartialEq, Eq, Structural, Debug)]
pub enum Severity {
    Info,
    Warning,
}

/// The recognized success token is reported at informational level;
/// every other outcome, the fallback included, at warning level.
pub open spec fn spec_severity(t: Token) -> Severity {
    match t {
        Token::Okay => Severity::Info,
        Token::BadRequest => Severity::Warning,
        Token::ServerError => Severity::Warning,
        Token::Unknown => Severity::Warning,
    }
}

/// The severity of the log record for one dispatch outcome.
pub fn severity_of(t: Token) -> (v: Severity)
    ensures
        v == spec_severity(t),
{
    match t {
        Token::Okay => Severity::Info,
        Token::BadRequest => Severity::Warning,
        Token::ServerError => Severity::Warning,
        Token::Unknown => Severity::Warning,
    }
}

} // verus!
