//! The contract of channel storage, over the sequence of channels that a
//! store holds.

use vstd::prelude::*;

use crate::domain::channel::model::{Channel, ChannelView, DraftChannel};
use crate::domain::text::contains_text;
use crate::domain::url::is_absolute_url;
use crate::exception::{ErrorView, RepositoryError, UrlParseFailed};

verus! {

/// The views of `channels`, in order.
pub open spec fn channel_views(channels: Seq<Channel>) -> Seq<ChannelView> {
    channels.map_values(|channel: Channel| channel@)
}

/// Some channel of `channels` has the identity `id`.
pub open spec fn has_id(channels: Seq<ChannelView>, id: Seq<char>) -> bool {
    exists|at: int| 0 <= at < channels.len() && (#[trigger] channels[at]).id == id
}

/// No two channels of `channels` have the same identity.
pub open spec fn ids_unique(channels: Seq<ChannelView>) -> bool {
    forall|i: int, j: int|
        0 <= i < j < channels.len() ==> (#[trigger] channels[i]).id != (#[trigger] channels[j]).id
}

/// The channel at `at` has the identity `id`, and none before it has.
pub open spec fn is_first_with_id(channels: Seq<ChannelView>, id: Seq<char>, at: int) -> bool {
    &&& 0 <= at < channels.len()
    &&& channels[at].id == id
    &&& forall|before: int| 0 <= before < at ==> (#[trigger] channels[before]).id != id
}

/// The first channel with the identity `id`, if there is one.
pub open spec fn first_with_id(channels: Seq<ChannelView>, id: Seq<char>) -> Option<ChannelView> {
    if exists|at: int| is_first_with_id(channels, id, at) {
        Some(channels[choose|at: int| is_first_with_id(channels, id, at)])
    } else {
        None
    }
}

/// What reading a stored channel gives: the channel, unless its icon's
/// address is no URL any more.
pub open spec fn decoded(stored: ChannelView) -> Result<ChannelView, ErrorView> {
    if is_absolute_url(stored.icon_url) {
        Ok(stored)
    } else {
        Err(ErrorView::DecodeFailed(UrlParseFailed::message_of(stored.icon_url)))
    }
}

/// What a lookup by identity answers: nothing where no channel has the
/// identity, else the first that has it, read.
pub open spec fn found(channels: Seq<ChannelView>, id: Seq<char>) -> Result<
    Option<ChannelView>,
    ErrorView,
> {
    match first_with_id(channels, id) {
        None => Ok(None),
        Some(stored) => match decoded(stored) {
            Ok(channel) => Ok(Some(channel)),
            Err(error) => Err(error),
        },
    }
}

/// A search for `pattern` lists the channel: its name holds the pattern, and
/// it can be read.
pub open spec fn is_listed(stored: ChannelView, pattern: Seq<char>) -> bool {
    contains_text(stored.name, pattern) && is_absolute_url(stored.icon_url)
}

/// What a search by name answers: the channels whose name holds `pattern`,
/// in the store's order, without those that cannot be read.
pub open spec fn named_like(channels: Seq<ChannelView>, pattern: Seq<char>) -> Seq<ChannelView> {
    channels.filter(listed_by(pattern))
}

/// `is_listed` for a fixed pattern.
pub open spec fn listed_by(pattern: Seq<char>) -> spec_fn(ChannelView) -> bool {
    |stored: ChannelView| is_listed(stored, pattern)
}

/// The view of a lookup's answer.
pub open spec fn lookup_view(answer: Result<Option<Channel>, RepositoryError>) -> Result<
    Option<ChannelView>,
    ErrorView,
> {
    match answer {
        Ok(Some(channel)) => Ok(Some(channel@)),
        Ok(None) => Ok(None),
        Err(error) => Err(error@),
    }
}

/// Storage of channels. An implementation answers from the channels it
/// holds, or reports that storage is not available; it never answers
/// something else.
pub trait ChannelRepository {
    /// The channels that the store holds, oldest first.
    spec fn channels(&self) -> Seq<ChannelView>;

    /// Looks a channel up by its identity. Absence is an answer, not a
    /// failure.
    fn find_by_id(&self, id: &str) -> (answer: Result<Option<Channel>, RepositoryError>)
        ensures
            lookup_view(answer) == found(self.channels(), id@) || lookup_view(answer) == Err::<
                Option<ChannelView>,
                ErrorView,
            >(ErrorView::StorageUnavailable),
    ;

    /// Lists the channels whose name holds `pattern`. A stored channel that
    /// cannot be read is left out and the others are still listed.
    fn search_by_name(&self, pattern: &str) -> (answer: Result<Vec<Channel>, RepositoryError>)
        ensures
            match answer {
                Ok(list) => channel_views(list@) == named_like(self.channels(), pattern@),
                Err(error) => error@ == ErrorView::StorageUnavailable,
            },
    ;

    /// Stores a new channel with the draft's fields. On failure the store is
    /// as it was.
    fn create(&mut self, channel: DraftChannel) -> (answer: Result<(), RepositoryError>)
        ensures
            match answer {
                Ok(()) => {
                    &&& !has_id(old(self).channels(), channel@.id)
                    &&& final(self).channels() == old(self).channels().push(channel@)
                },
                Err(error) => {
                    &&& final(self).channels() == old(self).channels()
                    &&& (error@ is WriteFailed || error@ is StorageUnavailable)
                },
            },
    ;
}

/// A lookup by an identity that no stored channel has answers with absence,
/// whatever the store holds.
pub proof fn lemma_absent_id_is_not_found(channels: Seq<ChannelView>, id: Seq<char>)
    requires
        !has_id(channels, id),
    ensures
        found(channels, id) == Ok::<Option<ChannelView>, ErrorView>(None),
{
    assert forall|at: int| !is_first_with_id(channels, id, at) by {
        if is_first_with_id(channels, id, at) {
            assert(channels[at].id == id);
        }
    }
}

/// After a draft with a new identity is stored, a lookup by that identity
/// answers with a channel that has the draft's fields.
pub proof fn lemma_created_channel_is_found(channels: Seq<ChannelView>, draft: ChannelView)
    requires
        is_absolute_url(draft.icon_url),
        !has_id(channels, draft.id),
    ensures
        found(channels.push(draft), draft.id) == Ok::<Option<ChannelView>, ErrorView>(Some(draft)),
{
    let after = channels.push(draft);
    let last = channels.len() as int;
    assert forall|before: int| 0 <= before < last implies (#[trigger] after[before]).id
        != draft.id by {
        assert(channels[before].id != draft.id);
    }
    assert(is_first_with_id(after, draft.id, last));
    let chosen = choose|at: int| is_first_with_id(after, draft.id, at);
    assert(chosen == last) by {
        if chosen < last {
            assert(after[chosen].id != draft.id);
        }
    }
}

/// Storing a draft with a new identity keeps the identities distinct.
pub proof fn lemma_create_keeps_ids_unique(channels: Seq<ChannelView>, draft: ChannelView)
    requires
        ids_unique(channels),
        !has_id(channels, draft.id),
    ensures
        ids_unique(channels.push(draft)),
{
    let after = channels.push(draft);
    assert forall|i: int, j: int| 0 <= i < j < after.len() implies (#[trigger] after[i]).id != (
    #[trigger] after[j]).id by {
        if j < channels.len() {
            assert(channels[i].id != channels[j].id);
        } else {
            assert(channels[i].id != draft.id);
        }
    }
}

/// A search whose pattern stands in no stored name answers with the empty
/// list.
pub proof fn lemma_search_without_match_is_empty(channels: Seq<ChannelView>, pattern: Seq<char>)
    requires
        forall|at: int|
            0 <= at < channels.len() ==> !contains_text((#[trigger] channels[at]).name, pattern),
    ensures
        named_like(channels, pattern) == Seq::<ChannelView>::empty(),
    decreases channels.len(),
{
    reveal(Seq::filter);
    if channels.len() > 0 {
        lemma_search_without_match_is_empty(channels.drop_last(), pattern);
        assert(!contains_text(channels[channels.len() - 1].name, pattern));
    }
}

} // verus!
