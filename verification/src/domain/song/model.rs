//! The song record.

use vstd::prelude::*;

verus! {

/// What a song holds, as plain text.
pub struct SongView {
    pub title: Seq<char>,
    pub channel_name: Seq<char>,
}

/// A song, with the name of the channel it appeared on.
#[derive(Debug, PartialEq, Eq)]
pub struct Song {
    pub title: String,
    pub channel_name: String,
}

impl View for Song {
    type V = SongView;

    open spec fn view(&self) -> SongView {
        SongView { title: self.title@, channel_name: self.channel_name@ }
    }
}

impl Clone for Song {
    fn clone(&self) -> (copy: Self)
        ensures
            copy@ == self@,
    {
        Song { title: self.title.clone(), channel_name: self.channel_name.clone() }
    }
}

} // verus!
