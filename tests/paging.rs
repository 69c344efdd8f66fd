use comment_sync::error::ServiceError;
use comment_sync::pager::{PageStep, Pager};

#[test]
fn pages_are_gathered_in_order_until_no_cursor() {
    let mut p: Pager<u32> = Pager::new();
    assert_eq!(p.first_step(), PageStep::Fetch { cursor: None, delay_ms: 0 });
    let s = p.on_page(vec![1, 2], Some("c1".to_string()));
    assert_eq!(s, PageStep::Fetch { cursor: Some("c1".to_string()), delay_ms: 100 });
    let s = p.on_page(vec![3], Some("c2".to_string()));
    assert_eq!(s, PageStep::Fetch { cursor: Some("c2".to_string()), delay_ms: 100 });
    assert_eq!(p.on_page(vec![4, 5, 6], None), PageStep::Done);
    let items = p.into_items();
    assert_eq!(items, vec![1, 2, 3, 4, 5, 6]);
    assert_eq!(items.len(), 2 + 1 + 3);
}

#[test]
fn single_empty_page_gives_nothing() {
    let mut p: Pager<u32> = Pager::new();
    assert_eq!(p.on_page(vec![], None), PageStep::Done);
    assert!(p.into_items().is_empty());
}

#[test]
fn repeated_cursor_fails_instead_of_refetching() {
    let mut p: Pager<u32> = Pager::new();
    p.on_page(vec![1], Some("c1".to_string()));
    p.on_page(vec![2], Some("c2".to_string()));
    let s = p.on_page(vec![3], Some("c1".to_string()));
    assert_eq!(s, PageStep::Failed(ServiceError::TransientExternalError));
    assert!(p.into_items().is_empty());
}

#[test]
fn failed_fetch_drops_gathered_pages() {
    let mut p: Pager<u32> = Pager::new();
    p.on_page(vec![1, 2], Some("c1".to_string()));
    assert_eq!(p.on_error(), PageStep::Failed(ServiceError::TransientExternalError));
    assert!(p.into_items().is_empty());
}
