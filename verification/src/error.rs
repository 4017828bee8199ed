//! The ways in which setting up, listing and searching can fail, and what
//! the operator is told of each.

use vstd::prelude::*;
use vstd::string::StringExecFns;

use crate::decimal::decimal_digits;
use crate::decimal::u64_to_decimal;
use crate::http::status_line;
use crate::http::status_text;

verus! {

/// Why a client could not be set up.
#[derive(Debug, Clone, Copy, PartialEq, Eq)]
pub enum ClientError {
    /// The credential holds a character that no header value may carry.
    InvalidCredential,
}

/// Why the listing of repositories was given up. Each of these ends the run.
#[derive(Debug)]
pub enum ListError {
    /// No response came back; the text says why.
    Unreachable(String),
    /// The listing endpoint answered with a status other than success.
    Status(u16),
    /// The body was no sequence of repositories.
    Parse { detail: String, base_url: String },
}

/// A `ListError` with its strings as sequences of characters.
pub enum ListErrorView {
    Unreachable(Seq<char>),
    Status(u16),
    Parse { detail: Seq<char>, base_url: Seq<char> },
}

impl View for ListError {
    type V = ListErrorView;

    open spec fn view(&self) -> ListErrorView {
        match self {
            ListError::Unreachable(detail) => ListErrorView::Unreachable(detail@),
            ListError::Status(status) => ListErrorView::Status(*status),
            ListError::Parse { detail, base_url } => ListErrorView::Parse {
                detail: detail@,
                base_url: base_url@,
            },
        }
    }
}

/// What the operator reads when the listing fails.
pub open spec fn list_error_message(error: ListErrorView) -> Seq<char> {
    match error {
        ListErrorView::Unreachable(detail) => detail,
        ListErrorView::Status(status) => "Failed to fetch projects: "@ + status_line(status),
        ListErrorView::Parse { detail, base_url } => "Failed to parse projects JSON: "@ + detail
            + ". \nHint: Check if your GITLAB_URL ("@ + base_url
            + ") is correct and accessible. If you see HTML in debug output, it might be a login page or 404."@,
    }
}

impl ListError {
    /// The text that tells the operator what went wrong.
    pub fn message(&self) -> (text: String)
        ensures
            text@ == list_error_message(self@),
    {
        match self {
            ListError::Unreachable(detail) => detail.clone(),
            ListError::Status(status) => {
                let mut text = String::from_str("Failed to fetch projects: ");
                let line = status_text(*status);
                text.append(line.as_str());
                text
            },
            ListError::Parse { detail, base_url } => {
                let mut text = String::from_str("Failed to parse projects JSON: ");
                text.append(detail.as_str());
                text.append(". \nHint: Check if your GITLAB_URL (");
                text.append(base_url.as_str());
                text.append(
                    ") is correct and accessible. If you see HTML in debug output, it might be a login page or 404.",
                );
                text
            },
        }
    }
}

/// Why the search of one repository was given up. None of these ends the run.
#[derive(Debug)]
pub enum SearchError {
    /// No response came back; the text says why.
    Unreachable(String),
    /// The host kept turning the search away after the last retry allowed.
    RetriesExhausted { project_id: u64 },
    /// The search endpoint answered with a status other than success.
    Status { project_id: u64, status: u16 },
    /// The body was no sequence of matches.
    Parse(String),
    /// The search broke off before it came to an end; the text says why.
    Aborted(String),
}

/// A `SearchError` with its strings as sequences of characters.
pub enum SearchErrorView {
    Unreachable(Seq<char>),
    RetriesExhausted { project_id: u64 },
    Status { project_id: u64, status: u16 },
    Parse(Seq<char>),
    Aborted(Seq<char>),
}

impl View for SearchError {
    type V = SearchErrorView;

    open spec fn view(&self) -> SearchErrorView {
        match self {
            SearchError::Unreachable(detail) => SearchErrorView::Unreachable(detail@),
            SearchError::RetriesExhausted { project_id } => SearchErrorView::RetriesExhausted {
                project_id: *project_id,
            },
            SearchError::Status { project_id, status } => SearchErrorView::Status {
                project_id: *project_id,
                status: *status,
            },
            SearchError::Parse(detail) => SearchErrorView::Parse(detail@),
            SearchError::Aborted(detail) => SearchErrorView::Aborted(detail@),
        }
    }
}

/// What the operator reads when the search of one repository fails.
pub open spec fn search_error_message(error: SearchErrorView) -> Seq<char> {
    match error {
        SearchErrorView::Unreachable(detail) => detail,
        SearchErrorView::RetriesExhausted { project_id } => "Max retries exceeded for project "@
            + decimal_digits(project_id as nat) + ": 429 Too Many Requests"@,
        SearchErrorView::Status { project_id, status } => "Search failed for project "@
            + decimal_digits(project_id as nat) + ": "@ + status_line(status),
        SearchErrorView::Parse(detail) => detail,
        SearchErrorView::Aborted(detail) => detail,
    }
}

impl SearchError {
    /// The text that tells the operator what went wrong.
    pub fn message(&self) -> (text: String)
        ensures
            text@ == search_error_message(self@),
    {
        match self {
            SearchError::Unreachable(detail) => detail.clone(),
            SearchError::RetriesExhausted { project_id } => {
                let mut text = String::from_str("Max retries exceeded for project ");
                let id = u64_to_decimal(*project_id);
                text.append(id.as_str());
                text.append(": 429 Too Many Requests");
                text
            },
            SearchError::Status { project_id, status } => {
                let mut text = String::from_str("Search failed for project ");
                let id = u64_to_decimal(*project_id);
                text.append(id.as_str());
                text.append(": ");
                let line = status_text(*status);
                text.append(line.as_str());
                text
            },
            SearchError::Parse(detail) => detail.clone(),
            SearchError::Aborted(detail) => detail.clone(),
        }
    }
}

} // verus!
