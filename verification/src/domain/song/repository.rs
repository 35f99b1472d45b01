//! The contract of song storage, over the sequence of songs that a store
//! holds.

use vstd::prelude::*;

use crate::domain::page::{page, paged};
use crate::domain::song::model::{Song, SongView};
use crate::domain::text::contains_text;
use crate::exception::{ErrorView, RepositoryError};

verus! {

/// The views of `songs`, in order.
pub open spec fn song_views(songs: Seq<Song>) -> Seq<SongView> {
    songs.map_values(|song: Song| song@)
}

/// The view of a filter that may be absent.
pub open spec fn filter_view(filter: Option<&str>) -> Option<Seq<char>> {
    match filter {
        Some(text) => Some(text@),
        None => None,
    }
}

/// The text passes the filter: an absent filter lets every text pass, a
/// present one the texts that hold it.
pub open spec fn passes(text: Seq<char>, filter: Option<Seq<char>>) -> bool {
    match filter {
        Some(wanted) => contains_text(text, wanted),
        None => true,
    }
}

/// The song passes both filters.
pub open spec fn is_selected(
    song: SongView,
    title: Option<Seq<char>>,
    channel_name: Option<Seq<char>>,
) -> bool {
    passes(song.title, title) && passes(song.channel_name, channel_name)
}

/// `is_selected` for fixed filters.
pub open spec fn selected_by(title: Option<Seq<char>>, channel_name: Option<Seq<char>>) -> spec_fn(
    SongView,
) -> bool {
    |song: SongView| is_selected(song, title, channel_name)
}

/// The songs that pass both filters, in the store's order.
pub open spec fn selected(
    songs: Seq<SongView>,
    title: Option<Seq<char>>,
    channel_name: Option<Seq<char>>,
) -> Seq<SongView> {
    songs.filter(selected_by(title, channel_name))
}

/// The view of a search's answer.
pub open spec fn search_view(answer: Result<Vec<Song>, RepositoryError>) -> Result<
    Seq<SongView>,
    ErrorView,
> {
    match answer {
        Ok(list) => Ok(song_views(list@)),
        Err(error) => Err(error@),
    }
}

/// The answer that reports that storage is not available.
pub open spec fn not_available() -> Result<Seq<SongView>, ErrorView> {
    Err(ErrorView::StorageUnavailable)
}

/// Storage of songs, which are searched and never written here.
pub trait SongRepository {
    /// The songs that the store holds, in its order.
    spec fn songs(&self) -> Seq<SongView>;

    /// Lists the songs whose title holds `title` and whose channel name
    /// holds `channel_name`, each filter only where it is given: from
    /// position `offset` among them, `limit` at most.
    fn search(
        &self,
        title: Option<&str>,
        channel_name: Option<&str>,
        limit: i32,
        offset: i32,
    ) -> (answer: Result<Vec<Song>, RepositoryError>)
        ensures
            search_view(answer) == paged(
                selected(self.songs(), filter_view(title), filter_view(channel_name)),
                limit as int,
                offset as int,
            ) || search_view(answer) == not_available(),
    ;
}

/// What one more song at the end of the store does to a selection.
pub proof fn lemma_selected_push(
    songs: Seq<SongView>,
    last: SongView,
    title: Option<Seq<char>>,
    channel_name: Option<Seq<char>>,
)
    ensures
        selected(songs.push(last), title, channel_name) == if is_selected(
            last,
            title,
            channel_name,
        ) {
            selected(songs, title, channel_name).push(last)
        } else {
            selected(songs, title, channel_name)
        },
{
    songs.lemma_filter_push(last, selected_by(title, channel_name));
}

/// Without filters a search is a plain listing: every song is selected.
pub proof fn lemma_search_without_filters_lists_all(songs: Seq<SongView>)
    ensures
        selected(songs, None, None) == songs,
    decreases songs.len(),
{
    if songs.len() > 0 {
        lemma_search_without_filters_lists_all(songs.drop_last());
        lemma_selected_push(songs.drop_last(), songs.last(), None, None);
        assert(songs.drop_last().push(songs.last()) =~= songs);
    } else {
        assert(selected(songs, None, None) =~= songs);
    }
}

/// Every song that a search lists passes both filters.
pub proof fn lemma_search_lists_selected_only(
    songs: Seq<SongView>,
    title: Option<Seq<char>>,
    channel_name: Option<Seq<char>>,
    limit: int,
    offset: int,
    at: int,
)
    requires
        0 <= limit,
        0 <= offset,
        0 <= at < page(selected(songs, title, channel_name), limit, offset).len(),
    ensures
        is_selected(
            page(selected(songs, title, channel_name), limit, offset)[at],
            title,
            channel_name,
        ),
{
    songs.lemma_filter_pred(selected_by(title, channel_name), offset + at);
}

} // verus!
