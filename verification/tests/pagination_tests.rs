use spotify_export::errors::PaginationError;
use spotify_export::pagination::{CollectionResult, PageDescriptor, PageFetch, PageMode,
    PageRequest, PageResponse};

/// A synthetic offset-mode provider holding `total` items named by index.
fn offset_provider_page(total: u64, offset: u64, limit: u64) -> PageResponse {
    let mut items = Vec::new();
    let mut i = offset;
    while i < total && i < offset + limit {
        items.push(format!("item{}", i));
        i += 1;
    }
    PageResponse { items, total, after: None }
}

#[test]
fn offset_mode_total_120_three_requests_in_order() {
    let mut fetch = PageFetch::new(PageDescriptor::new(PageMode::Offset, 50));
    let mut offsets_requested: Vec<u64> = Vec::new();
    while let Some(req) = fetch.next_request() {
        assert_eq!(req.limit, 50);
        assert!(req.after.is_none());
        offsets_requested.push(req.offset);
        let page = offset_provider_page(120, req.offset, req.limit);
        fetch.apply_response(page).expect("pagination must make progress");
    }
    assert_eq!(offsets_requested, vec![0, 50, 100]);
    let result: CollectionResult = fetch.into_result();
    assert_eq!(result.total, 120);
    assert_eq!(result.items.len(), 120);
    for (i, item) in result.items.iter().enumerate() {
        assert_eq!(item, &format!("item{}", i));
    }
}

#[test]
fn cursor_mode_stops_when_after_is_omitted() {
    let mut fetch = PageFetch::new(PageDescriptor::new(PageMode::Cursor, 50));
    let first = fetch.next_request().expect("first request expected");
    assert!(first.after.is_none());
    // The server declares 10 items but stops supplying a cursor after 6.
    fetch
        .apply_response(PageResponse {
            items: vec!["a1".to_string(), "a2".to_string(), "a3".to_string()],
            total: 10,
            after: Some("cur1".to_string()),
        })
        .expect("first page must apply");
    let second = fetch.next_request().expect("second request expected");
    assert_eq!(second.after.as_deref(), Some("cur1"));
    fetch
        .apply_response(PageResponse {
            items: vec!["a4".to_string(), "a5".to_string(), "a6".to_string()],
            total: 10,
            after: None,
        })
        .expect("second page must apply");
    // Complete although only 6 of the declared 10 items arrived.
    assert!(fetch.next_request().is_none());
    let result = fetch.into_result();
    assert_eq!(result.items.len(), 6);
}

#[test]
fn zero_new_items_below_total_is_no_progress() {
    let mut fetch = PageFetch::new(PageDescriptor::new(PageMode::Offset, 50));
    let outcome = fetch.apply_response(PageResponse { items: Vec::new(), total: 5, after: None });
    assert_eq!(outcome, Err(PaginationError::NoProgress));
    // The state is untouched: the walk is not complete and nothing was kept.
    assert!(fetch.next_request().is_some());
    assert_eq!(fetch.items.len(), 0);
}

#[test]
fn zero_items_with_zero_total_completes() {
    let mut fetch = PageFetch::new(PageDescriptor::new(PageMode::Offset, 50));
    fetch
        .apply_response(PageResponse { items: Vec::new(), total: 0, after: None })
        .expect("an empty collection is complete after its first page");
    assert!(fetch.next_request().is_none());
    let result = fetch.into_result();
    assert_eq!(result.total, 0);
    assert_eq!(result.items.len(), 0);
}

#[test]
fn page_after_completion_is_rejected() {
    let mut fetch = PageFetch::new(PageDescriptor::new(PageMode::Offset, 50));
    fetch
        .apply_response(offset_provider_page(2, 0, 50))
        .expect("single page must apply");
    assert!(fetch.next_request().is_none());
    let outcome = fetch.apply_response(offset_provider_page(2, 0, 50));
    assert_eq!(outcome, Err(PaginationError::AlreadyComplete));
}

#[test]
fn offset_requests_resume_at_accumulated_count() {
    let mut fetch = PageFetch::new(PageDescriptor::new(PageMode::Offset, 10));
    fetch
        .apply_response(PageResponse {
            items: vec!["x0".to_string(), "x1".to_string(), "x2".to_string()],
            total: 7,
            after: None,
        })
        .expect("short page must apply");
    let req: PageRequest = fetch.next_request().expect("more items are owed");
    assert_eq!(req.offset, 3);
    assert_eq!(req.limit, 10);
}
