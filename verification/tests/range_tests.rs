use block_query::error::QueryBlockError;
use block_query::query::QueryBlocks;

#[test]
fn negative_start_fails_with_start_height_fault() {
    assert_eq!(
        QueryBlocks::check_range_boundaries(-1, 5),
        Err(QueryBlockError::InvalidStartHeight(-1)),
    );
    assert_eq!(
        QueryBlocks::check_range_boundaries(-100, -200),
        Err(QueryBlockError::InvalidStartHeight(-100)),
    );
}

#[test]
fn inverted_range_fails_with_end_height_fault() {
    assert_eq!(
        QueryBlocks::check_range_boundaries(5, 4),
        Err(QueryBlockError::InvalidEndHeight(4)),
    );
    assert_eq!(
        QueryBlocks::check_range_boundaries(0, -1),
        Err(QueryBlockError::InvalidEndHeight(-1)),
    );
}

#[test]
fn oversized_range_fails_with_page_size_fault() {
    assert_eq!(
        QueryBlocks::check_range_boundaries(0, 500),
        Err(QueryBlockError::BlocksPageSizeTooLarge(501)),
    );
}

#[test]
fn largest_allowed_range_is_accepted() {
    assert_eq!(QueryBlocks::check_range_boundaries(0, 499), Ok(500));
}

#[test]
fn single_block_range_is_accepted() {
    assert_eq!(QueryBlocks::check_range_boundaries(7, 7), Ok(1));
}
