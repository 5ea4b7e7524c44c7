//! The history window's requests: which endpoint an address names and what
//! each answers. Encoding the answer as JSON happens outside the library.
use vstd::prelude::*;
use crate::history::HistoryEntry;
use crate::routing::{endpoint_of, endpoint_path};
use crate::text::same_text;

verus! {

/// The history window's endpoints.
#[derive(Debug, Clone, Copy, PartialEq, Eq, Structural)]
pub enum HistoryEndpoint {
    List,
    Copy,
    Clear,
    Unknown,
}

/// The endpoint a request path names.
pub open spec fn history_endpoint_named(path: Seq<char>) -> HistoryEndpoint {
    if path == "list"@ {
        HistoryEndpoint::List
    } else if path == "copy"@ {
        HistoryEndpoint::Copy
    } else if path == "clear"@ {
        HistoryEndpoint::Clear
    } else {
        HistoryEndpoint::Unknown
    }
}

/// The endpoint a request address names.
pub fn history_endpoint(uri: &str) -> (endpoint: HistoryEndpoint)
    ensures
        endpoint == history_endpoint_named(endpoint_path(uri@)),
{
    let path = endpoint_of(uri);
    if same_text(path.as_str(), "list") {
        HistoryEndpoint::List
    } else if same_text(path.as_str(), "copy") {
        HistoryEndpoint::Copy
    } else if same_text(path.as_str(), "clear") {
        HistoryEndpoint::Clear
    } else {
        HistoryEndpoint::Unknown
    }
}

/// An answer to the history window: whether the request succeeded, the
/// error when it did not, and the entries when it listed them.
pub struct ApiResponse {
    pub ok: bool,
    pub error: Option<String>,
    pub entries: Option<Vec<HistoryEntry>>,
}

impl ApiResponse {
    /// Success with nothing more to say.
    pub fn ok() -> (r: Self)
        ensures
            r.ok,
            r.error is None,
            r.entries is None,
    {
        ApiResponse { ok: true, error: None, entries: None }
    }

    /// Success with the listed entries.
    pub fn with_entries(entries: Vec<HistoryEntry>) -> (r: Self)
        ensures
            r.ok,
            r.error is None,
            r.entries == Some(entries),
    {
        ApiResponse { ok: true, error: None, entries: Some(entries) }
    }

    /// Failure with the given error.
    pub fn error(error: &str) -> (r: Self)
        ensures
            !r.ok,
            r.error matches Some(e) && e@ == error@,
            r.entries is None,
    {
        ApiResponse { ok: false, error: Some(String::from_str(error)), entries: None }
    }

    /// The answer to an address naming no endpoint.
    pub fn unknown_endpoint() -> (r: Self)
        ensures
            !r.ok,
            r.error matches Some(e) && e@ == "unknown endpoint"@,
            r.entries is None,
    {
        ApiResponse::error("unknown endpoint")
    }
}

/// The answer to `list`: the listed entries, or the error reading them.
pub fn list_response(listed: Result<Vec<HistoryEntry>, String>) -> (r: ApiResponse)
    ensures
        match listed {
            Ok(entries) => r.ok && r.error is None && r.entries == Some(entries),
            Err(e) => !r.ok && (r.error matches Some(m) && m@ == e@) && r.entries is None,
        },
{
    match listed {
        Ok(entries) => ApiResponse::with_entries(entries),
        Err(e) => ApiResponse::error(e.as_str()),
    }
}

/// The answer to `copy`: success once the entry's text is on the clipboard,
/// or the error (a malformed request, an unknown id, a clipboard failure).
pub fn copy_response(copied: Result<(), String>) -> (r: ApiResponse)
    ensures
        match copied {
            Ok(()) => r.ok && r.error is None && r.entries is None,
            Err(e) => !r.ok && (r.error matches Some(m) && m@ == e@) && r.entries is None,
        },
{
    match copied {
        Ok(()) => ApiResponse::ok(),
        Err(e) => ApiResponse::error(e.as_str()),
    }
}

/// The answer to `clear`: success once the history is emptied, or the error
/// writing it.
pub fn clear_response(cleared: Result<(), String>) -> (r: ApiResponse)
    ensures
        match cleared {
            Ok(()) => r.ok && r.error is None && r.entries is None,
            Err(e) => !r.ok && (r.error matches Some(m) && m@ == e@) && r.entries is None,
        },
{
    match cleared {
        Ok(()) => ApiResponse::ok(),
        Err(e) => ApiResponse::error(e.as_str()),
    }
}

} // verus!
