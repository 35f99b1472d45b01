//! The contract of video storage, over the sequence of videos that a store
//! holds.

use vstd::prelude::*;

use crate::domain::page::{page, paged};
use crate::domain::video::model::{DraftVideo, Video, VideoView};
use crate::exception::{ErrorView, RepositoryError};

verus! {

/// The views of `videos`, in order.
pub open spec fn video_views(videos: Seq<Video>) -> Seq<VideoView> {
    videos.map_values(|video: Video| video@)
}

/// The video belongs to the channel.
pub open spec fn belongs_to(channel_id: int) -> spec_fn(VideoView) -> bool {
    |video: VideoView| video.channel_id == channel_id
}

/// The videos of one channel, in the store's order.
pub open spec fn of_channel(videos: Seq<VideoView>, channel_id: int) -> Seq<VideoView> {
    videos.filter(belongs_to(channel_id))
}

/// The view of a listing's answer.
pub open spec fn listing_view(answer: Result<Vec<Video>, RepositoryError>) -> Result<
    Seq<VideoView>,
    ErrorView,
> {
    match answer {
        Ok(list) => Ok(video_views(list@)),
        Err(error) => Err(error@),
    }
}

/// The answer that reports that storage is not available.
pub open spec fn not_available() -> Result<Seq<VideoView>, ErrorView> {
    Err(ErrorView::StorageUnavailable)
}

/// Storage of videos. An implementation answers from the videos it holds,
/// in the order in which they were stored, or reports that storage is not
/// available.
pub trait VideoRepository {
    /// The videos that the store holds, oldest first.
    spec fn videos(&self) -> Seq<VideoView>;

    /// Lists the videos of one channel: from position `offset` among them,
    /// `limit` at most. A channel without videos, or one that does not
    /// exist, gives the empty list.
    #[allow(non_snake_case)]
    fn listByChannel(&self, channel_id: i64, limit: i64, offset: i64) -> (answer: Result<
        Vec<Video>,
        RepositoryError,
    >)
        ensures
            listing_view(answer) == paged(
                of_channel(self.videos(), channel_id as int),
                limit as int,
                offset as int,
            ) || listing_view(answer) == not_available(),
    ;

    /// Lists all videos: from position `offset`, `limit` at most.
    fn list(&self, limit: i64, offset: i64) -> (answer: Result<Vec<Video>, RepositoryError>)
        ensures
            listing_view(answer) == paged(self.videos(), limit as int, offset as int)
                || listing_view(answer) == not_available(),
    ;

    /// Stores a new video with the draft's fields, after those that the
    /// store holds. On failure the store is as it was.
    fn create(&mut self, video: DraftVideo) -> (answer: Result<(), RepositoryError>)
        ensures
            match answer {
                Ok(()) => final(self).videos() == old(self).videos().push(video@),
                Err(error) => {
                    &&& final(self).videos() == old(self).videos()
                    &&& (error@ is WriteFailed || error@ is StorageUnavailable)
                },
            },
    ;
}

/// What one more video at the end of the store does to the videos of a
/// channel.
pub proof fn lemma_of_channel_push(videos: Seq<VideoView>, last: VideoView, channel_id: int)
    ensures
        of_channel(videos.push(last), channel_id) == if last.channel_id == channel_id {
            of_channel(videos, channel_id).push(last)
        } else {
            of_channel(videos, channel_id)
        },
{
    videos.lemma_filter_push(last, belongs_to(channel_id));
}

/// A listing by channel holds videos of that channel only.
pub proof fn lemma_listed_by_channel_belong(
    videos: Seq<VideoView>,
    channel_id: int,
    limit: int,
    offset: int,
    at: int,
)
    requires
        0 <= limit,
        0 <= offset,
        0 <= at < page(of_channel(videos, channel_id), limit, offset).len(),
    ensures
        page(of_channel(videos, channel_id), limit, offset)[at].channel_id == channel_id,
{
    videos.lemma_filter_pred(belongs_to(channel_id), offset + at);
}

/// A channel of which the store holds no video has the empty listing.
pub proof fn lemma_channel_without_videos_is_empty(
    videos: Seq<VideoView>,
    channel_id: int,
    limit: int,
    offset: int,
)
    requires
        0 <= limit,
        0 <= offset,
        forall|at: int| 0 <= at < videos.len() ==> (#[trigger] videos[at]).channel_id != channel_id,
    ensures
        paged(of_channel(videos, channel_id), limit, offset) == Ok::<Seq<VideoView>, ErrorView>(
            Seq::empty(),
        ),
{
    videos.lemma_all_neg_filter_empty(belongs_to(channel_id));
    assert(page(of_channel(videos, channel_id), limit, offset) =~= Seq::<VideoView>::empty());
}

} // verus!
