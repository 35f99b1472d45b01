//! Songs kept in memory.

use vstd::prelude::*;

use crate::domain::page::{check_page, in_page, lemma_page_push, page, paged};
use crate::domain::song::model::{Song, SongView};
use crate::domain::song::repository::{
    filter_view, is_selected, lemma_selected_push, passes, search_view, selected, song_views,
    SongRepository,
};
use crate::domain::text::{chars_of, contains_chars};
use crate::exception::RepositoryError;

verus! {

/// A store of songs in memory. It never fails for want of storage.
pub struct MemorySongRepository {
    stored: Vec<Song>,
}

/// The characters of a filter that may be absent.
fn filter_chars(filter: Option<&str>) -> (chars: Option<Vec<char>>)
    ensures
        match chars {
            Some(text) => filter_view(filter) == Some(text@),
            None => filter_view(filter) is None,
        },
{
    match filter {
        Some(text) => Some(chars_of(text)),
        None => None,
    }
}

/// Whether `text` passes the filter.
fn passes_filter(text: &str, filter: &Option<Vec<char>>) -> (yes: bool)
    ensures
        yes == passes(
            text@,
            match filter {
                Some(wanted) => Some(wanted@),
                None => None,
            },
        ),
{
    match filter {
        Some(wanted) => {
            let chars = chars_of(text);
            contains_chars(&chars, wanted)
        },
        None => true,
    }
}

impl MemorySongRepository {
    /// A store that holds `songs`, in their order.
    pub fn new(songs: Vec<Song>) -> (repository: Self)
        ensures
            repository.songs() == song_views(songs@),
    {
        MemorySongRepository { stored: songs }
    }
}

impl SongRepository for MemorySongRepository {
    closed spec fn songs(&self) -> Seq<SongView> {
        song_views(self.stored@)
    }

    fn search(
        &self,
        title: Option<&str>,
        channel_name: Option<&str>,
        limit: i32,
        offset: i32,
    ) -> (answer: Result<Vec<Song>, RepositoryError>)
        ensures
            search_view(answer) == paged(
                selected(self.songs(), filter_view(title), filter_view(channel_name)),
                limit as int,
                offset as int,
            ),
    {
        let limit_wide: i64 = limit as i64;
        let offset_wide: i64 = offset as i64;
        match check_page(limit_wide, offset_wide) {
            Err(error) => { return Err(error); },
            Ok(()) => {},
        }
        let wanted_title = filter_chars(title);
        let wanted_channel = filter_chars(channel_name);
        let ghost by_title = filter_view(title);
        let ghost by_channel = filter_view(channel_name);
        let mut list: Vec<Song> = Vec::new();
        let mut seen: usize = 0;
        let mut at: usize = 0;
        assert(self.songs().take(0) =~= Seq::<SongView>::empty());
        while at < self.stored.len()
            invariant
                0 <= limit_wide == limit,
                0 <= offset_wide == offset,
                at <= self.stored.len(),
                seen <= at,
                match wanted_title {
                    Some(text) => by_title == Some(text@),
                    None => by_title is None,
                },
                match wanted_channel {
                    Some(text) => by_channel == Some(text@),
                    None => by_channel is None,
                },
                seen == selected(self.songs().take(at as int), by_title, by_channel).len(),
                song_views(list@) == page(
                    selected(self.songs().take(at as int), by_title, by_channel),
                    limit as int,
                    offset as int,
                ),
            decreases self.stored.len() - at,
        {
            let ghost before = self.songs().take(at as int);
            let ghost next = self.songs()[at as int];
            proof {
                assert(self.songs().take(at + 1) =~= before.push(next));
                lemma_selected_push(before, next, by_title, by_channel);
                lemma_page_push(
                    selected(before, by_title, by_channel),
                    next,
                    limit as int,
                    offset as int,
                );
            }
            if passes_filter(self.stored[at].title.as_str(), &wanted_title) && passes_filter(
                self.stored[at].channel_name.as_str(),
                &wanted_channel,
            ) {
                assert(is_selected(next, by_title, by_channel));
                if in_page(seen, limit_wide, offset_wide) {
                    let song = self.stored[at].clone();
                    assert(song_views(list@.push(song)) =~= song_views(list@).push(next));
                    list.push(song);
                }
                seen += 1;
            }
            at += 1;
        }
        assert(self.songs().take(at as int) =~= self.songs());
        Ok(list)
    }
}

} // verus!
