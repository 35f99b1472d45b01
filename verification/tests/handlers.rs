use media_catalog::domain::channel::model::{Channel, DraftChannel};
use media_catalog::domain::channel::repository::ChannelRepository;
use media_catalog::domain::url::Url;
use media_catalog::domain::video::model::{DraftVideo, Video};
use media_catalog::domain::video::repository::VideoRepository;
use media_catalog::exception::RepositoryError;
use media_catalog::handlers::{
    create_channel_handler, create_channel_reply, list_video_handler, list_video_reply, Empty,
    Status,
};
use media_catalog::infra::channel::memory_repository::MemoryChannelRepository;
use media_catalog::infra::video::memory_repository::MemoryVideoRepository;

fn draft(id: &str) -> DraftChannel {
    DraftChannel {
        id: id.to_string(),
        name: "bar".to_string(),
        icon_url: Url::try_from("https://example.com").unwrap(),
    }
}

#[test]
fn create_channel_reply_is_created_on_success() {
    let reply = create_channel_reply(Ok(())).unwrap();
    assert_eq!(reply.status, Status::Created);
    assert_eq!(reply.body, Empty {});
}

#[test]
fn create_channel_reply_rejects_with_the_failure() {
    let rejection = create_channel_reply(Err(RepositoryError::StorageUnavailable)).unwrap_err();
    assert_eq!(rejection.0, RepositoryError::StorageUnavailable);
    let rejection =
        create_channel_reply(Err(RepositoryError::WriteFailed("no".to_string()))).unwrap_err();
    assert_eq!(rejection.0, RepositoryError::WriteFailed("no".to_string()));
}

#[test]
fn list_video_reply_is_success_with_the_videos() {
    let videos = vec![Video { channel_id: 1, title: "a".to_string() }];
    let reply = list_video_reply(Ok(videos)).unwrap();
    assert_eq!(reply.status, Status::Success);
    assert_eq!(reply.body, vec![Video { channel_id: 1, title: "a".to_string() }]);
}

#[test]
fn list_video_reply_rejects_with_the_failure() {
    let rejection = list_video_reply(Err(RepositoryError::NotFound)).unwrap_err();
    assert_eq!(rejection.0, RepositoryError::NotFound);
}

#[test]
fn create_channel_handler_stores_the_draft() {
    let mut repository = MemoryChannelRepository::new();
    let reply = create_channel_handler(&mut repository, draft("foo")).unwrap();
    assert_eq!(reply.status, Status::Created);
    assert_eq!(
        repository.find_by_id("foo"),
        Ok(Some(Channel {
            id: "foo".to_string(),
            name: "bar".to_string(),
            icon_url: Url::try_from("https://example.com").unwrap(),
        }))
    );
}

#[test]
fn create_channel_handler_rejects_a_known_id() {
    let mut repository = MemoryChannelRepository::new();
    create_channel_handler(&mut repository, draft("foo")).unwrap();
    let rejection = create_channel_handler(&mut repository, draft("foo")).unwrap_err();
    assert!(matches!(rejection.0, RepositoryError::WriteFailed(_)));
    assert_eq!(repository.search_by_name("").unwrap().len(), 1);
}

#[test]
fn list_video_handler_takes_the_offset_before_the_limit() {
    let mut repository = MemoryVideoRepository::new();
    for title in ["a", "b", "c", "d"] {
        repository
            .create(DraftVideo { channel_id: 1, title: title.to_string() })
            .unwrap();
    }
    let reply = list_video_handler(&repository, 1, 2).unwrap();
    assert_eq!(reply.status, Status::Success);
    assert_eq!(
        reply.body,
        vec![
            Video { channel_id: 1, title: "b".to_string() },
            Video { channel_id: 1, title: "c".to_string() },
        ]
    );
}

#[test]
fn list_video_handler_rejects_a_negative_limit() {
    let repository = MemoryVideoRepository::new();
    let rejection = list_video_handler(&repository, 0, -1).unwrap_err();
    assert_eq!(
        rejection.0,
        RepositoryError::ValidationFailed("LIMIT must not be negative".to_string())
    );
}
