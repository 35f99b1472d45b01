//! The channel records.

use vstd::prelude::*;
use vstd::string::StringExecFns;

use crate::domain::url::{is_absolute_url, Url};
use crate::exception::{debug_quoted, quote, ErrorView, RepositoryError, UrlParseFailed};

verus! {

/// What a channel holds, as plain text. A stored channel and a draft have
/// the same fields, and so the same view.
pub struct ChannelView {
    pub id: Seq<char>,
    pub name: Seq<char>,
    pub icon_url: Seq<char>,
}

/// A channel as the store holds it. Its `id` is its identity.
#[derive(Debug, PartialEq, Eq)]
pub struct Channel {
    pub id: String,
    pub name: String,
    pub icon_url: Url,
}

impl View for Channel {
    type V = ChannelView;

    open spec fn view(&self) -> ChannelView {
        ChannelView { id: self.id@, name: self.name@, icon_url: self.icon_url@ }
    }
}

impl Clone for Channel {
    fn clone(&self) -> (copy: Self)
        ensures
            copy@ == self@,
            is_absolute_url(copy@.icon_url),
    {
        Channel { id: self.id.clone(), name: self.name.clone(), icon_url: self.icon_url.clone() }
    }
}

/// A channel that a caller wants stored: every field is the caller's, the
/// store adds none.
#[derive(Debug, PartialEq, Eq)]
pub struct DraftChannel {
    pub id: String,
    pub name: String,
    pub icon_url: Url,
}

impl View for DraftChannel {
    type V = ChannelView;

    open spec fn view(&self) -> ChannelView {
        ChannelView { id: self.id@, name: self.name@, icon_url: self.icon_url@ }
    }
}

impl DraftChannel {
    /// What building a draft from plain text gives.
    pub open spec fn built(id: Seq<char>, name: Seq<char>, icon_url: Seq<char>) -> Result<
        ChannelView,
        ErrorView,
    > {
        if is_absolute_url(icon_url) {
            Ok(ChannelView { id, name, icon_url })
        } else {
            Err(ErrorView::ValidationFailed(UrlParseFailed::message_of(icon_url)))
        }
    }

    /// Builds a draft from plain text. The icon's address is validated here:
    /// a draft with a malformed one does not come to exist.
    pub fn new(id: String, name: String, icon_url: String) -> (draft: Result<
        DraftChannel,
        RepositoryError,
    >)
        ensures
            match draft {
                Ok(made) => Self::built(id@, name@, icon_url@) == Ok::<ChannelView, ErrorView>(
                    made@,
                ),
                Err(error) => Self::built(id@, name@, icon_url@) == Err::<ChannelView, ErrorView>(
                    error@,
                ),
            },
    {
        match Url::parse(icon_url) {
            Ok(address) => Ok(DraftChannel { id, name, icon_url: address }),
            Err(failure) => Err(RepositoryError::invalid_input(&failure)),
        }
    }

    /// A draft as text: the record's name and its fields by name, each text
    /// quoted.
    pub open spec fn described(draft: ChannelView) -> Seq<char> {
        "DraftChannel { id: "@ + debug_quoted(draft.id) + ", name: "@ + debug_quoted(draft.name)
            + ", icon_url: Url("@ + debug_quoted(draft.icon_url) + ") }"@
    }

    /// This draft as text.
    pub fn describe(&self) -> (text: String)
        ensures
            text@ == Self::described(self@),
    {
        String::from_str("DraftChannel { id: ").concat(quote(self.id.as_str()).as_str()).concat(
            ", name: ",
        ).concat(quote(self.name.as_str()).as_str()).concat(", icon_url: Url(").concat(
            quote(self.icon_url.as_str()).as_str(),
        ).concat(") }")
    }

    /// What the failure to insert a draft says.
    pub open spec fn insert_failure_of(draft: ChannelView) -> ErrorView {
        ErrorView::WriteFailed("Failed Insert row.data: "@ + Self::described(draft))
    }

    /// The failure that reports that this draft was not inserted.
    pub fn insert_failure(&self) -> (error: RepositoryError)
        ensures
            error@ == Self::insert_failure_of(self@),
    {
        let words = String::from_str("Failed Insert row.data: ").concat(self.describe().as_str());
        RepositoryError::WriteFailed(words)
    }

    /// The channel that the store holds once this draft is inserted.
    pub fn into_channel(self) -> (channel: Channel)
        ensures
            channel@ == self@,
    {
        Channel { id: self.id, name: self.name, icon_url: self.icon_url }
    }
}

} // verus!
