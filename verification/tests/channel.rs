use media_catalog::domain::channel::model::{Channel, DraftChannel};
use media_catalog::domain::channel::repository::ChannelRepository;
use media_catalog::domain::url::Url;
use media_catalog::exception::RepositoryError;
use media_catalog::infra::channel::memory_repository::MemoryChannelRepository;

fn draft(id: &str, name: &str, icon_url: &str) -> DraftChannel {
    DraftChannel {
        id: id.to_string(),
        name: name.to_string(),
        icon_url: Url::try_from(icon_url).unwrap(),
    }
}

fn channel(id: &str, name: &str, icon_url: &str) -> Channel {
    Channel {
        id: id.to_string(),
        name: name.to_string(),
        icon_url: Url::try_from(icon_url).unwrap(),
    }
}

#[test]
fn create_add_row_and_find_by_id() {
    let mut repository = MemoryChannelRepository::new();
    let draft_channel = DraftChannel {
        id: "foo".to_string(),
        name: "bar".to_string(),
        icon_url: Url::try_from("https://example.com").unwrap(),
    };
    repository
        .create(draft_channel)
        .expect("Failed create draft channel");
    let channel = repository
        .find_by_id("foo")
        .expect("foo is not found in channels");
    assert!(channel.is_some());
    let channel = channel.unwrap();
    assert_eq!(channel.id, "foo");
    assert_eq!(channel.name, "bar");
    assert_eq!(channel.icon_url.to_string(), "https://example.com");
}

#[test]
fn find_by_id_without_match_is_absence() {
    let mut repository = MemoryChannelRepository::new();
    assert_eq!(repository.find_by_id("foo"), Ok(None));
    repository.create(draft("foo", "bar", "https://example.com")).unwrap();
    assert_eq!(repository.find_by_id("fo"), Ok(None));
    assert_eq!(repository.find_by_id("foo "), Ok(None));
    assert_eq!(repository.find_by_id(""), Ok(None));
}

#[test]
fn created_channel_is_found_with_the_fields_of_the_draft() {
    let mut repository = MemoryChannelRepository::new();
    repository.create(draft("a", "first", "https://a.example/icon.png")).unwrap();
    repository.create(draft("b", "second", "https://b.example/icon.png")).unwrap();
    assert_eq!(
        repository.find_by_id("b"),
        Ok(Some(channel("b", "second", "https://b.example/icon.png")))
    );
    assert_eq!(
        repository.find_by_id("a"),
        Ok(Some(channel("a", "first", "https://a.example/icon.png")))
    );
}

#[test]
fn create_with_a_known_id_fails_and_changes_nothing() {
    let mut repository = MemoryChannelRepository::new();
    repository.create(draft("foo", "bar", "https://example.com")).unwrap();
    let again = repository.create(draft("foo", "other", "https://other.example"));
    assert_eq!(
        again,
        Err(RepositoryError::WriteFailed(
            "Failed Insert row.data: DraftChannel { id: \"foo\", name: \"other\", icon_url: Url(\"https://other.example\") }"
                .to_string()
        ))
    );
    assert_eq!(
        repository.find_by_id("foo"),
        Ok(Some(channel("foo", "bar", "https://example.com")))
    );
    assert_eq!(
        repository.search_by_name(""),
        Ok(vec![channel("foo", "bar", "https://example.com")])
    );
}

#[test]
fn search_by_name_without_match_is_empty() {
    let mut repository = MemoryChannelRepository::new();
    assert_eq!(repository.search_by_name("x"), Ok(vec![]));
    repository.create(draft("foo", "bar", "https://example.com")).unwrap();
    assert_eq!(repository.search_by_name("baz"), Ok(vec![]));
    assert_eq!(repository.search_by_name("Bar"), Ok(vec![]));
}

#[test]
fn search_by_name_lists_matches_in_the_order_of_creation() {
    let mut repository = MemoryChannelRepository::new();
    repository.create(draft("1", "morning news", "https://one.example")).unwrap();
    repository.create(draft("2", "cooking", "https://two.example")).unwrap();
    repository.create(draft("3", "evening news", "https://three.example")).unwrap();
    assert_eq!(
        repository.search_by_name("news"),
        Ok(vec![
            channel("1", "morning news", "https://one.example"),
            channel("3", "evening news", "https://three.example"),
        ])
    );
    assert_eq!(
        repository.search_by_name("ing"),
        Ok(vec![
            channel("1", "morning news", "https://one.example"),
            channel("2", "cooking", "https://two.example"),
            channel("3", "evening news", "https://three.example"),
        ])
    );
}

#[test]
fn draft_from_text_validates_the_address() {
    let made = DraftChannel::new(
        "foo".to_string(),
        "bar".to_string(),
        "https://example.com".to_string(),
    );
    assert_eq!(made, Ok(draft("foo", "bar", "https://example.com")));
    let refused = DraftChannel::new("foo".to_string(), "bar".to_string(), "not a url".to_string());
    assert_eq!(
        refused,
        Err(RepositoryError::ValidationFailed("\"not a url\" is invalid url".to_string()))
    );
    let empty = DraftChannel::new("foo".to_string(), "bar".to_string(), String::new());
    assert_eq!(
        empty,
        Err(RepositoryError::ValidationFailed("\"\" is invalid url".to_string()))
    );
}

#[test]
fn insert_failure_names_the_draft() {
    let failure = draft("foo", "bar", "https://example.com").insert_failure();
    assert_eq!(
        failure,
        RepositoryError::WriteFailed(
            "Failed Insert row.data: DraftChannel { id: \"foo\", name: \"bar\", icon_url: Url(\"https://example.com\") }"
                .to_string()
        )
    );
}

#[test]
fn draft_becomes_a_channel_with_the_same_fields() {
    assert_eq!(
        draft("foo", "bar", "https://example.com").into_channel(),
        channel("foo", "bar", "https://example.com")
    );
    let copy = channel("foo", "bar", "https://example.com").clone();
    assert_eq!(copy, channel("foo", "bar", "https://example.com"));
}
