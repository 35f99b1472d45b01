//! Failures of the catalog and the taxonomy handed to the transport layer.

use vstd::prelude::*;
use vstd::string::StringExecFns;

verus! {

/// What `{:?}` prints for a string: the text between double quotes, with the
/// escapes of std's `Debug` for `str`.
pub uninterp spec fn debug_quoted(text: Seq<char>) -> Seq<char>;

/// Formats `text` with `{:?}`, which goes through std's `Debug` for `str`.
/// The result is a function of the text alone; it is named, not spelled out.
#[verifier::external_body]
pub(crate) fn quote(text: &str) -> (out: String)
    ensures
        out@ == debug_quoted(text@),
{
    format!("{:?}", text)
}

/// A string was offered as a URL and is none.
#[derive(Debug, PartialEq, Eq)]
pub struct UrlParseFailed {
    url: String,
}

impl View for UrlParseFailed {
    type V = Seq<char>;

    /// The offending string.
    closed spec fn view(&self) -> Seq<char> {
        self.url@
    }
}

impl UrlParseFailed {
    /// The failure for the string `url`.
    pub fn new(url: String) -> (failure: Self)
        ensures
            failure@ == url@,
    {
        UrlParseFailed { url }
    }

    /// The offending string, as it was given.
    pub fn url(&self) -> (raw: &str)
        ensures
            raw@ == self@,
    {
        self.url.as_str()
    }

    /// The text of the failure, for a string `raw`.
    pub open spec fn message_of(raw: Seq<char>) -> Seq<char> {
        debug_quoted(raw) + " is invalid url"@
    }

    /// The failure as text: the quoted string, then ` is invalid url`.
    pub fn to_string(&self) -> (text: String)
        ensures
            text@ == Self::message_of(self@),
    {
        quote(self.url.as_str()).concat(" is invalid url")
    }
}

/// What a storage engine reports when a statement does not go through.
#[derive(Debug, PartialEq, Eq)]
pub enum StorageFailure {
    /// The engine took the statement and refused it; with the engine's words.
    Rejected(String),
    /// The engine could not be reached, or did not answer.
    Unavailable,
}

pub enum StorageFailureView {
    Rejected(Seq<char>),
    Unavailable,
}

impl View for StorageFailure {
    type V = StorageFailureView;

    open spec fn view(&self) -> StorageFailureView {
        match self {
            StorageFailure::Rejected(words) => StorageFailureView::Rejected(words@),
            StorageFailure::Unavailable => StorageFailureView::Unavailable,
        }
    }
}

/// The failures that leave the repository layer.
#[derive(Debug, PartialEq, Eq)]
pub enum RepositoryError {
    /// Absence. No repository operation fails with it: a lookup that finds
    /// nothing succeeds with `None`. The transport layer answers an absent
    /// entity with it.
    NotFound,
    /// An input value is malformed.
    ValidationFailed(String),
    /// Stored data could not be turned back into an entity.
    DecodeFailed(String),
    /// A write had no effect or was refused.
    WriteFailed(String),
    /// The storage engine could not be reached.
    StorageUnavailable,
}

pub enum ErrorView {
    NotFound,
    ValidationFailed(Seq<char>),
    DecodeFailed(Seq<char>),
    WriteFailed(Seq<char>),
    StorageUnavailable,
}

impl View for RepositoryError {
    type V = ErrorView;

    open spec fn view(&self) -> ErrorView {
        match self {
            RepositoryError::NotFound => ErrorView::NotFound,
            RepositoryError::ValidationFailed(detail) => ErrorView::ValidationFailed(detail@),
            RepositoryError::DecodeFailed(detail) => ErrorView::DecodeFailed(detail@),
            RepositoryError::WriteFailed(detail) => ErrorView::WriteFailed(detail@),
            RepositoryError::StorageUnavailable => ErrorView::StorageUnavailable,
        }
    }
}

impl RepositoryError {
    /// What a failed write becomes: a refusal is a failed write with the
    /// engine's words, anything else means that storage was not available.
    /// (A failed read always means that storage was not available.)
    pub open spec fn of_write_failure(failure: StorageFailureView) -> ErrorView {
        match failure {
            StorageFailureView::Rejected(words) => ErrorView::WriteFailed(words),
            StorageFailureView::Unavailable => ErrorView::StorageUnavailable,
        }
    }

    /// The failure that a caller sees for a write that the engine did not
    /// carry out.
    pub fn from_write_failure(failure: StorageFailure) -> (error: RepositoryError)
        ensures
            error@ == Self::of_write_failure(failure@),
    {
        match failure {
            StorageFailure::Rejected(words) => RepositoryError::WriteFailed(words),
            StorageFailure::Unavailable => RepositoryError::StorageUnavailable,
        }
    }

    /// A caller offered a string as a URL and it is none.
    pub fn invalid_input(failure: &UrlParseFailed) -> (error: RepositoryError)
        ensures
            error@ == ErrorView::ValidationFailed(UrlParseFailed::message_of(failure@)),
    {
        RepositoryError::ValidationFailed(failure.to_string())
    }

    /// A stored string was to be a URL and is none.
    pub fn corrupt_data(failure: &UrlParseFailed) -> (error: RepositoryError)
        ensures
            error@ == ErrorView::DecodeFailed(UrlParseFailed::message_of(failure@)),
    {
        RepositoryError::DecodeFailed(failure.to_string())
    }
}

/// A repository failure on its way to the transport layer, which turns it
/// into a rejection.
#[derive(Debug)]
pub struct WarpError(pub RepositoryError);

impl View for WarpError {
    type V = ErrorView;

    open spec fn view(&self) -> ErrorView {
        self.0@
    }
}

} // verus!
