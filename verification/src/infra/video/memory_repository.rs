//! Videos kept in memory, in the order in which they were stored.

use vstd::prelude::*;

use crate::domain::page::{check_page, in_page, lemma_page_push, page, page_bounds, paged};
use crate::domain::video::model::{DraftVideo, Video, VideoView};
use crate::domain::video::repository::{
    lemma_of_channel_push, listing_view, of_channel, video_views, VideoRepository,
};
use crate::exception::RepositoryError;

verus! {

/// A store of videos in memory. It never fails for want of storage, and it
/// takes every draft.
pub struct MemoryVideoRepository {
    stored: Vec<Video>,
}

impl MemoryVideoRepository {
    /// An empty store.
    pub fn new() -> (repository: Self)
        ensures
            repository.videos() == Seq::<VideoView>::empty(),
    {
        let repository = MemoryVideoRepository { stored: Vec::new() };
        assert(repository.videos() =~= Seq::<VideoView>::empty());
        repository
    }
}

impl VideoRepository for MemoryVideoRepository {
    closed spec fn videos(&self) -> Seq<VideoView> {
        video_views(self.stored@)
    }

    #[allow(non_snake_case)]
    fn listByChannel(&self, channel_id: i64, limit: i64, offset: i64) -> (answer: Result<
        Vec<Video>,
        RepositoryError,
    >)
        ensures
            listing_view(answer) == paged(
                of_channel(self.videos(), channel_id as int),
                limit as int,
                offset as int,
            ),
    {
        match check_page(limit, offset) {
            Err(error) => { return Err(error); },
            Ok(()) => {},
        }
        let mut list: Vec<Video> = Vec::new();
        let mut seen: usize = 0;
        let mut at: usize = 0;
        assert(self.videos().take(0) =~= Seq::<VideoView>::empty());
        while at < self.stored.len()
            invariant
                0 <= limit,
                0 <= offset,
                at <= self.stored.len(),
                seen <= at,
                seen == of_channel(self.videos().take(at as int), channel_id as int).len(),
                video_views(list@) == page(
                    of_channel(self.videos().take(at as int), channel_id as int),
                    limit as int,
                    offset as int,
                ),
            decreases self.stored.len() - at,
        {
            let ghost before = self.videos().take(at as int);
            let ghost next = self.videos()[at as int];
            proof {
                assert(self.videos().take(at + 1) =~= before.push(next));
                lemma_of_channel_push(before, next, channel_id as int);
                lemma_page_push(
                    of_channel(before, channel_id as int),
                    next,
                    limit as int,
                    offset as int,
                );
            }
            if self.stored[at].channel_id == channel_id {
                if in_page(seen, limit, offset) {
                    let video = self.stored[at].clone();
                    assert(video_views(list@.push(video)) =~= video_views(list@).push(next));
                    list.push(video);
                }
                seen += 1;
            }
            at += 1;
        }
        assert(self.videos().take(at as int) =~= self.videos());
        Ok(list)
    }

    fn list(&self, limit: i64, offset: i64) -> (answer: Result<Vec<Video>, RepositoryError>)
        ensures
            listing_view(answer) == paged(self.videos(), limit as int, offset as int),
    {
        let (start, end) = match page_bounds(self.stored.len(), limit, offset) {
            Err(error) => { return Err(error); },
            Ok(bounds) => bounds,
        };
        let mut list: Vec<Video> = Vec::new();
        let mut at: usize = start;
        while at < end
            invariant
                start <= at <= end <= self.stored.len(),
                video_views(list@) == self.videos().subrange(start as int, at as int),
            decreases end - at,
        {
            let video = self.stored[at].clone();
            assert(video_views(list@.push(video)) =~= video_views(list@).push(video@));
            assert(self.videos().subrange(start as int, at + 1) =~= self.videos().subrange(
                start as int,
                at as int,
            ).push(self.videos()[at as int]));
            list.push(video);
            at += 1;
        }
        Ok(list)
    }

    fn create(&mut self, video: DraftVideo) -> (answer: Result<(), RepositoryError>)
        ensures
            answer is Ok,
    {
        let ghost before = self.videos();
        let ghost draft = video@;
        self.stored.push(video.into_video());
        assert(self.videos() =~= before.push(draft));
        Ok(())
    }
}

} // verus!
