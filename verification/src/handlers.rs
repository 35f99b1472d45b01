//! What the transport layer answers: the reply for each outcome of a
//! repository call, and the calls themselves.

use vstd::prelude::*;

use crate::domain::channel::model::DraftChannel;
use crate::domain::channel::repository::{has_id, ChannelRepository};
use crate::domain::page::paged;
use crate::domain::video::model::{Video, VideoView};
use crate::domain::video::repository::{video_views, VideoRepository};
use crate::exception::{ErrorView, RepositoryError, WarpError};

verus! {

/// The status of a reply.
#[derive(Debug, Clone, Copy, PartialEq, Eq)]
pub enum Status {
    /// The request was served.
    Success,
    /// The request made a new entity.
    Created,
}

/// A body without content.
#[derive(Debug, PartialEq, Eq)]
pub struct Empty {}

/// A reply: a status and a body.
#[derive(Debug)]
pub struct Reply<T> {
    pub status: Status,
    pub body: T,
}

/// The view of the answer to a request for videos.
pub open spec fn video_reply_view(reply: Result<Reply<Vec<Video>>, WarpError>) -> Result<
    Seq<VideoView>,
    ErrorView,
> {
    match reply {
        Ok(served) => Ok(video_views(served.body@)),
        Err(rejection) => Err(rejection@),
    }
}

/// The reply to a request to create a channel, from what the repository
/// said: `Created` with an empty body where it stored the channel, else a
/// rejection that carries the repository's failure.
pub fn create_channel_reply(outcome: Result<(), RepositoryError>) -> (reply: Result<
    Reply<Empty>,
    WarpError,
>)
    ensures
        match outcome {
            Ok(()) => reply matches Ok(served) && served.status == Status::Created,
            Err(error) => reply matches Err(rejection) && rejection.0 == error,
        },
{
    match outcome {
        Ok(()) => Ok(Reply { status: Status::Created, body: Empty {  } }),
        Err(error) => Err(WarpError(error)),
    }
}

/// The reply to a request for videos, from what the repository said:
/// `Success` with the videos where it listed them, else a rejection that carries the
/// repository's failure.
pub fn list_video_reply(outcome: Result<Vec<Video>, RepositoryError>) -> (reply: Result<
    Reply<Vec<Video>>,
    WarpError,
>)
    ensures
        match outcome {
            Ok(videos) => reply matches Ok(served) && served.status == Status::Success && served.body
                == videos,
            Err(error) => reply matches Err(rejection) && rejection.0 == error,
        },
{
    match outcome {
        Ok(videos) => Ok(Reply { status: Status::Success, body: videos }),
        Err(error) => Err(WarpError(error)),
    }
}

/// Serves a request to create a channel: asks the repository to store the
/// draft and replies with what came of it.
pub fn create_channel_handler<A: ChannelRepository>(
    application: &mut A,
    draft_channel: DraftChannel,
) -> (reply: Result<Reply<Empty>, WarpError>)
    ensures
        match reply {
            Ok(served) => {
                &&& served.status == Status::Created
                &&& !has_id(old(application).channels(), draft_channel@.id)
                &&& final(application).channels() == old(application).channels().push(
                    draft_channel@,
                )
            },
            Err(rejection) => {
                &&& final(application).channels() == old(application).channels()
                &&& (rejection@ is WriteFailed || rejection@ is StorageUnavailable)
            },
        },
{
    let outcome = application.create(draft_channel);
    create_channel_reply(outcome)
}

/// Serves a request for videos: asks the repository for the window that
/// `limit` and `offset` select and replies with what came of it.
pub fn list_video_handler<A: VideoRepository>(application: &A, offset: i64, limit: i64) -> (reply:
    Result<Reply<Vec<Video>>, WarpError>)
    ensures
        reply matches Ok(served) ==> served.status == Status::Success,
        video_reply_view(reply) == paged(application.videos(), limit as int, offset as int)
            || video_reply_view(reply) == Err::<Seq<VideoView>, ErrorView>(
            ErrorView::StorageUnavailable,
        ),
{
    let outcome = application.list(limit, offset);
    list_video_reply(outcome)
}

} // verus!
