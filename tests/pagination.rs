use stateset_core::error::Error;
use stateset_core::pagination::{read_page, PageRequest, Paginator};

/// Reads pages, served in order, until the paginator stops; checks that the
/// first request is for the endpoint and each later one for the previous cursor.
fn drain(pages: Vec<(Vec<Result<&'static str, Error>>, Option<&'static str>)>) -> (Vec<Result<&'static str, Error>>, usize) {
    let mut p = Paginator::new();
    let mut out = Vec::new();
    let mut fetched = 0;
    let mut expected_cursor: Option<String> = None;
    let mut pages = pages.into_iter();
    while let Some(req) = p.next_request() {
        match (&req, &expected_cursor) {
            (PageRequest::First, None) => {}
            (PageRequest::Cursor(c), Some(e)) => assert_eq!(c, e),
            _ => panic!("unexpected request {:?}", req),
        }
        let (items, next) = pages.next().expect("no more pages");
        fetched += 1;
        expected_cursor = next.map(|s| s.to_string());
        out.extend(p.on_page(items, next.map(|s| s.to_string())));
    }
    (out, fetched)
}

#[test]
fn two_pages_yield_all_items_in_order() {
    let (items, fetched) = drain(vec![(vec![Ok("a"), Ok("b")], Some("page-2")), (vec![Ok("c")], None)]);
    let items: Vec<&str> = items.into_iter().map(|r| r.unwrap()).collect();
    assert_eq!(items, vec!["a", "b", "c"]);
    assert_eq!(fetched, 2);
}

#[test]
fn empty_page_yields_nothing() {
    let (items, fetched) = drain(vec![(vec![], None)]);
    assert!(items.is_empty());
    assert_eq!(fetched, 1);
}

#[test]
fn empty_page_stops_even_with_a_cursor() {
    let (items, fetched) = drain(vec![(vec![Ok("a")], Some("page-2")), (vec![], Some("page-3"))]);
    assert_eq!(items.len(), 1);
    assert_eq!(fetched, 2);
}

#[test]
fn failed_item_is_yielded_and_reading_goes_on() {
    let (items, fetched) = drain(vec![
        (vec![Ok("a"), Err(Error::network("bad item")), Ok("b")], Some("page-2")),
        (vec![Ok("c")], None),
    ]);
    assert_eq!(fetched, 2);
    assert_eq!(items.len(), 4);
    assert!(items[1].is_err());
    assert_eq!(*items[2].as_ref().unwrap(), "b");
    assert_eq!(*items[3].as_ref().unwrap(), "c");
}

#[test]
fn fetch_error_ends_reading() {
    let mut p = Paginator::new();
    assert!(matches!(p.next_request(), Some(PageRequest::First)));
    let e = p.on_fetch_error(Error::NotFound);
    assert!(matches!(e, Error::NotFound));
    assert!(p.next_request().is_none());
}

#[test]
fn envelope_reading() {
    let v: serde_json::Value = serde_json::from_str(r#"{"data":[1,{"x":2}],"next_page":"/p2","next":"/other"}"#).unwrap();
    let (items, next) = read_page(&v);
    assert_eq!(items.len(), 2);
    assert_eq!(items[1]["x"], 2);
    assert_eq!(next, Some("/p2".to_string()));
    let v: serde_json::Value = serde_json::from_str(r#"{"data":[],"next":"https://x/p3"}"#).unwrap();
    let (items, next) = read_page(&v);
    assert!(items.is_empty());
    assert_eq!(next, Some("https://x/p3".to_string()));
    let v: serde_json::Value = serde_json::from_str(r#"{"items":[1],"next_page":null}"#).unwrap();
    let (items, next) = read_page(&v);
    assert!(items.is_empty());
    assert_eq!(next, None);
    let v: serde_json::Value = serde_json::from_str(r#"{"data":[1],"next_page":null,"next":"/p4"}"#).unwrap();
    let (items, next) = read_page(&v);
    assert_eq!(items.len(), 1);
    assert_eq!(next, Some("/p4".to_string()));
}
