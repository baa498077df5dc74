//! A status dispatcher for a minimal HTTP test server: maps a request path
//! segment to a canned status code and body, and classifies each outcome
//! for the log stream.

pub mod dispatch;
pub mod observe;
