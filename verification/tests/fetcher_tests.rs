use vector_ingest::fetcher::{collect_items, paginate, Fetcher};

#[test]
fn pagination_requests_cumulative_offsets() {
    let sizes = vec![50usize, 3, 0];
    let trace = paginate(&sizes, 50);
    assert_eq!(trace.requests, vec![0, 50, 53]);
    assert_eq!(trace.total, 53);
}

#[test]
fn pagination_stops_at_first_empty_page() {
    let sizes = vec![10usize, 0, 7, 0];
    let trace = paginate(&sizes, 50);
    assert_eq!(trace.requests, vec![0, 10]);
    assert_eq!(trace.total, 10);
}

#[test]
fn pagination_consumes_all_pages_when_none_is_empty() {
    let sizes = vec![2usize, 3];
    let trace = paginate(&sizes, 50);
    assert_eq!(trace.requests, vec![0, 2]);
    assert_eq!(trace.total, 5);
}

#[test]
fn pagination_first_page_empty() {
    let sizes = vec![0usize];
    let trace = paginate(&sizes, 50);
    assert_eq!(trace.requests, vec![0]);
    assert_eq!(trace.total, 0);
}

#[test]
fn two_pages_then_empty_emit_53_items_in_3_requests() {
    let mut pages: Vec<Vec<String>> = Vec::new();
    let mut page1 = Vec::new();
    for i in 0..50 {
        page1.push(format!("item-{}", i));
    }
    let mut page2 = Vec::new();
    for i in 50..53 {
        page2.push(format!("item-{}", i));
    }
    pages.push(page1);
    pages.push(page2);
    pages.push(Vec::new());
    let (items, requests) = collect_items(pages, 50);
    assert_eq!(items.len(), 53);
    assert_eq!(requests, vec![0, 50, 53]);
    assert_eq!(items[0], "item-0");
    assert_eq!(items[49], "item-49");
    assert_eq!(items[52], "item-52");
}

#[test]
fn fetcher_cursor_advances_by_page_length() {
    let mut f = Fetcher::new();
    assert!(!f.is_done());
    let r = f.next_request(50);
    assert_eq!(r.offset, 0);
    assert_eq!(r.limit, 50);
    f.record_page(50);
    assert!(!f.is_done());
    assert_eq!(f.next_request(50).offset, 50);
    f.record_page(3);
    assert_eq!(f.next_request(50).offset, 53);
    f.record_page(0);
    assert!(f.is_done());
    assert_eq!(f.offset(), 53);
}

#[test]
fn fetcher_failure_is_soft_end_of_data() {
    let mut f = Fetcher::new();
    f.record_page(7);
    f.record_failure();
    assert!(f.is_done());
    assert_eq!(f.offset(), 7);
}
