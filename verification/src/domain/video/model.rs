//! The video records.

use vstd::prelude::*;

verus! {

/// What a video holds, as plain values. A stored video and a draft have the
/// same fields, and so the same view.
pub struct VideoView {
    pub channel_id: int,
    pub title: Seq<char>,
}

/// A video as the store holds it. It belongs to the channel that
/// `channel_id` names.
#[derive(Debug, PartialEq, Eq)]
pub struct Video {
    pub channel_id: i64,
    pub title: String,
}

impl View for Video {
    type V = VideoView;

    open spec fn view(&self) -> VideoView {
        VideoView { channel_id: self.channel_id as int, title: self.title@ }
    }
}

impl Clone for Video {
    fn clone(&self) -> (copy: Self)
        ensures
            copy@ == self@,
    {
        Video { channel_id: self.channel_id, title: self.title.clone() }
    }
}

/// A video that a caller wants stored.
#[derive(Debug, PartialEq, Eq)]
pub struct DraftVideo {
    pub channel_id: i64,
    pub title: String,
}

impl View for DraftVideo {
    type V = VideoView;

    open spec fn view(&self) -> VideoView {
        VideoView { channel_id: self.channel_id as int, title: self.title@ }
    }
}

impl DraftVideo {
    /// The video that the store holds once this draft is inserted.
    pub fn into_video(self) -> (video: Video)
        ensures
            video@ == self@,
    {
        Video { channel_id: self.channel_id, title: self.title }
    }
}

} // verus!
