use media_catalog::domain::page::{check_page, in_page, page_bounds};
use media_catalog::exception::RepositoryError;

#[test]
fn bounds_of_a_window_inside_the_data() {
    assert_eq!(page_bounds(10, 3, 2), Ok((2, 5)));
    assert_eq!(page_bounds(10, 10, 0), Ok((0, 10)));
}

#[test]
fn bounds_stop_at_the_end_of_the_data() {
    assert_eq!(page_bounds(10, 5, 8), Ok((8, 10)));
    assert_eq!(page_bounds(10, i64::MAX, 3), Ok((3, 10)));
    assert_eq!(page_bounds(10, i64::MAX, i64::MAX), Ok((10, 10)));
}

#[test]
fn limit_zero_gives_an_empty_window() {
    assert_eq!(page_bounds(10, 0, 4), Ok((4, 4)));
    assert_eq!(page_bounds(0, 0, 0), Ok((0, 0)));
}

#[test]
fn offset_beyond_the_data_gives_an_empty_window() {
    assert_eq!(page_bounds(10, 5, 10), Ok((10, 10)));
    assert_eq!(page_bounds(10, 5, 11), Ok((10, 10)));
}

#[test]
fn negative_limit_is_refused_before_negative_offset() {
    let limit = RepositoryError::ValidationFailed("LIMIT must not be negative".to_string());
    let offset = RepositoryError::ValidationFailed("OFFSET must not be negative".to_string());
    assert_eq!(page_bounds(10, -1, 0), Err(limit));
    assert_eq!(page_bounds(10, 1, -1), Err(offset));
    assert_eq!(
        check_page(-1, -1),
        Err(RepositoryError::ValidationFailed("LIMIT must not be negative".to_string()))
    );
    assert_eq!(
        check_page(0, i64::MIN),
        Err(RepositoryError::ValidationFailed("OFFSET must not be negative".to_string()))
    );
    assert_eq!(check_page(0, 0), Ok(()));
}

#[test]
fn position_is_inside_the_window_from_offset_for_limit_items() {
    assert!(!in_page(1, 3, 2));
    assert!(in_page(2, 3, 2));
    assert!(in_page(4, 3, 2));
    assert!(!in_page(5, 3, 2));
    assert!(!in_page(0, 0, 0));
    assert!(in_page(7, i64::MAX, i64::MAX - 1) == false);
    assert!(in_page(usize::MAX, i64::MAX, 0) == ((usize::MAX as u128) < (i64::MAX as u128)));
}
