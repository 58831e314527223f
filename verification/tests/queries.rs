use lemmy_federation::db_utils::{
    diesel_option_overwrite, diesel_option_overwrite_to_url, diesel_option_overwrite_to_url_create,
    fuzzy_search, limit_and_offset, limit_and_offset_unlimited, post_to_comment_sort_type,
    CommentSortType, InvalidUrl, PagingError, SortType, FETCH_LIMIT_DEFAULT, FETCH_LIMIT_MAX,
};

#[test]
fn test_fuzzy_search() {
    let test = "This %is% _a_ fuzzy search";
    assert_eq!(
      fuzzy_search(test),
      "%This%\\%is\\%%\\_a\\_%fuzzy%search%".to_string()
    );
}

#[test]
fn test_fuzzy_search_edges() {
    assert_eq!(fuzzy_search(""), "%%");
    assert_eq!(fuzzy_search("plain"), "%plain%");
    assert_eq!(fuzzy_search("%"), "%\\%%");
}

#[test]
fn test_diesel_option_overwrite() {
    assert_eq!(diesel_option_overwrite(None), None);
    assert_eq!(diesel_option_overwrite(Some(String::new())), Some(None));
    assert_eq!(
      diesel_option_overwrite(Some("test".to_string())),
      Some(Some("test".to_string()))
    );
}

#[test]
fn test_diesel_option_overwrite_to_url() {
    assert!(matches!(diesel_option_overwrite_to_url(&None), Ok(None)));
    assert!(matches!(
      diesel_option_overwrite_to_url(&Some(String::new())),
      Ok(Some(None))
    ));
    assert!(diesel_option_overwrite_to_url(&Some("invalid_url".to_string())).is_err());
    let example_url = "https://example.com";
    assert!(matches!(
      diesel_option_overwrite_to_url(&Some(example_url.to_string())),
      Ok(Some(Some(url))) if url == url::Url::parse(example_url).unwrap().to_string()
    ));
}

#[test]
fn test_diesel_option_overwrite_to_url_create() {
    assert_eq!(diesel_option_overwrite_to_url_create(&None), Ok(None));
    assert_eq!(diesel_option_overwrite_to_url_create(&Some(String::new())), Ok(None));
    assert_eq!(
        diesel_option_overwrite_to_url_create(&Some("invalid_url".to_string())),
        Err(InvalidUrl)
    );
    assert_eq!(
        diesel_option_overwrite_to_url_create(&Some("https://example.com".to_string())),
        Ok(Some("https://example.com/".to_string()))
    );
}

#[test]
fn test_limit_and_offset() {
    assert_eq!(limit_and_offset(None, None), Ok((FETCH_LIMIT_DEFAULT, 0)));
    assert_eq!(limit_and_offset(Some(3), Some(20)), Ok((20, 40)));
    assert_eq!(limit_and_offset(Some(1), Some(FETCH_LIMIT_MAX)), Ok((50, 0)));
    assert_eq!(limit_and_offset(Some(0), Some(20)), Err(PagingError::PageTooSmall));
    assert_eq!(limit_and_offset(Some(-4), None), Err(PagingError::PageTooSmall));
    assert_eq!(limit_and_offset(Some(1), Some(0)), Err(PagingError::LimitOutOfRange));
    assert_eq!(limit_and_offset(Some(1), Some(51)), Err(PagingError::LimitOutOfRange));
    assert_eq!(limit_and_offset(Some(0), Some(51)), Err(PagingError::PageTooSmall));
}

#[test]
fn test_limit_and_offset_unlimited() {
    assert_eq!(limit_and_offset_unlimited(None, None), (10, 0));
    assert_eq!(limit_and_offset_unlimited(Some(4), Some(1000)), (1000, 3000));
    assert_eq!(limit_and_offset_unlimited(Some(2), None), (10, 10));
}

#[test]
fn test_post_to_comment_sort_type() {
    assert_eq!(post_to_comment_sort_type(SortType::Active), CommentSortType::Hot);
    assert_eq!(post_to_comment_sort_type(SortType::Hot), CommentSortType::Hot);
    assert_eq!(post_to_comment_sort_type(SortType::Scaled), CommentSortType::Hot);
    assert_eq!(post_to_comment_sort_type(SortType::New), CommentSortType::New);
    assert_eq!(post_to_comment_sort_type(SortType::MostComments), CommentSortType::New);
    assert_eq!(post_to_comment_sort_type(SortType::Old), CommentSortType::Old);
    assert_eq!(post_to_comment_sort_type(SortType::Controversial), CommentSortType::Controversial);
    assert_eq!(post_to_comment_sort_type(SortType::TopNineMonths), CommentSortType::Top);
    assert_eq!(post_to_comment_sort_type(SortType::TopAll), CommentSortType::Top);
}
