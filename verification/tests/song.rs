use media_catalog::domain::song::model::Song;
use media_catalog::domain::song::repository::SongRepository;
use media_catalog::exception::RepositoryError;
use media_catalog::infra::song::memory_repository::MemorySongRepository;

fn song(title: &str, channel_name: &str) -> Song {
    Song { title: title.to_string(), channel_name: channel_name.to_string() }
}

fn filled() -> MemorySongRepository {
    let mut songs = Vec::new();
    for at in 0..12 {
        let title = if at % 3 == 0 { format!("x song {}", at) } else { format!("song {}", at) };
        let channel_name = if at % 2 == 0 { "even" } else { "odd" };
        songs.push(song(&title, channel_name));
    }
    MemorySongRepository::new(songs)
}

#[test]
fn search_without_filters_lists_the_first_ten() {
    let repository = filled();
    let listed = repository.search(None, None, 10, 0).unwrap();
    assert_eq!(listed.len(), 10);
    assert_eq!(listed[0], song("x song 0", "even"));
    assert_eq!(listed[1], song("song 1", "odd"));
    assert_eq!(listed[9], song("x song 9", "odd"));
}

#[test]
fn search_without_filters_on_a_small_store_lists_all() {
    let repository = MemorySongRepository::new(vec![song("a", "one"), song("b", "two")]);
    assert_eq!(
        repository.search(None, None, 10, 0),
        Ok(vec![song("a", "one"), song("b", "two")])
    );
    let empty = MemorySongRepository::new(vec![]);
    assert_eq!(empty.search(None, None, 10, 0), Ok(vec![]));
}

#[test]
fn search_by_title_lists_matching_titles_only() {
    let repository = filled();
    assert_eq!(
        repository.search(Some("x"), None, 10, 0),
        Ok(vec![
            song("x song 0", "even"),
            song("x song 3", "odd"),
            song("x song 6", "even"),
            song("x song 9", "odd"),
        ])
    );
}

#[test]
fn search_by_channel_name_lists_matching_channels_only() {
    let repository = filled();
    let listed = repository.search(None, Some("odd"), 100, 0).unwrap();
    assert_eq!(listed.len(), 6);
    assert!(listed.iter().all(|song| song.channel_name == "odd"));
}

#[test]
fn search_by_both_filters_requires_both() {
    let repository = filled();
    assert_eq!(
        repository.search(Some("x"), Some("even"), 10, 0),
        Ok(vec![song("x song 0", "even"), song("x song 6", "even")])
    );
    assert_eq!(repository.search(Some("x"), Some("none"), 10, 0), Ok(vec![]));
    assert_eq!(repository.search(Some("y"), Some("even"), 10, 0), Ok(vec![]));
}

#[test]
fn search_pages_after_filtering() {
    let repository = filled();
    assert_eq!(
        repository.search(Some("x"), None, 2, 1),
        Ok(vec![song("x song 3", "odd"), song("x song 6", "even")])
    );
    assert_eq!(repository.search(Some("x"), None, 2, 4), Ok(vec![]));
    assert_eq!(repository.search(Some("x"), None, 0, 0), Ok(vec![]));
    assert_eq!(
        repository.search(None, None, i32::MAX, 11),
        Ok(vec![song("song 11", "odd")])
    );
}

#[test]
fn search_with_an_empty_filter_lists_all() {
    let repository = filled();
    assert_eq!(repository.search(Some(""), Some(""), 100, 0).unwrap().len(), 12);
}

#[test]
fn search_refuses_a_negative_limit_or_offset() {
    let repository = filled();
    assert_eq!(
        repository.search(None, None, -1, 0),
        Err(RepositoryError::ValidationFailed("LIMIT must not be negative".to_string()))
    );
    assert_eq!(
        repository.search(Some("x"), None, 10, i32::MIN),
        Err(RepositoryError::ValidationFailed("OFFSET must not be negative".to_string()))
    );
}
