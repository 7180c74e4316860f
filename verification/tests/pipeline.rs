use steamscrape::api::{appids_of_response, steamid_of_response, Api};
use steamscrape::error::{ApiError, ErrorKind};
use steamscrape::page::{fetch, page_of_response, process_items, Page};
use steamscrape::download::{bytes_of_response, wget};

const EXAMPLE_BODY: &str = "<html><body>\
    <div itemprop=\"image\" content=\"http://img/a.jpg\"></div>\
    <div class=\"highlight_strip_screenshot\">\
    <img src=\"http://img/b.116x65.jpg\">\
    </div>\
    </body></html>";

#[test]
fn cached_body_is_reused_without_fetch() {
    let cached = Some(String::from(EXAMPLE_BODY));
    let outcome = Page::scrape(678950, cached).unwrap();
    assert!(!outcome.fetched);
    assert_eq!(outcome.body, EXAMPLE_BODY);
}

#[test]
fn fetch_prefers_cache() {
    let f = fetch("http://store.steampowered.com/app/678950/", Some(String::from("cached body")))
        .unwrap();
    assert_eq!(f.body, "cached body");
    assert!(!f.fetched);
}

#[test]
fn end_to_end_example() {
    let outcome = Page::scrape(678950, Some(String::from(EXAMPLE_BODY))).unwrap();
    let page = &outcome.page;
    assert_eq!(page.appid(), 678950);
    assert_eq!(page.cache_path(), "cache/678950");
    assert_eq!(page.props().get("image"), Some("http://img/a.jpg"));
    assert_eq!(page.props().get("name"), None);
    assert_eq!(page.screenshots(), &vec![String::from("http://img/b.116x65.jpg")]);

    let jobs = page.fetch_images();
    assert_eq!(jobs.len(), 2);
    let first = jobs[0].as_ref().unwrap();
    assert_eq!(first.url, "http://img/a.jpg");
    assert_eq!(first.path, "cache/678950/a.jpg");
    let second = jobs[1].as_ref().unwrap();
    assert_eq!(second.url, "http://img/b.jpg");
    assert_eq!(second.path, "cache/678950/b.jpg");
}

#[test]
fn page_response_decision() {
    let ok = page_of_response(200, String::from("<html></html>")).unwrap();
    assert!(ok.fetched);
    assert_eq!(ok.body, "<html></html>");
    match page_of_response(503, String::from("<html></html>")) {
        Err(e) => {
            assert_eq!(e.kind(), ErrorKind::Fetch);
            assert_eq!(e.reason(), "Failed to retrieve steam store page");
        }
        Ok(_) => panic!("expected a fetch error"),
    }
}

#[test]
fn bytes_response_decision() {
    let ok = bytes_of_response(200, vec![1, 2, 3]).unwrap();
    assert_eq!(ok, vec![1, 2, 3]);
    match bytes_of_response(404, vec![1]) {
        Err(e) => {
            assert_eq!(e.kind(), ErrorKind::Fetch);
            assert_eq!(e.reason(), "Failed to retrieve URL");
        }
        Ok(_) => panic!("expected a fetch error"),
    }
}

#[test]
fn skip_if_exists_never_fetches() {
    let r = wget("http://img/a.jpg", true, false).unwrap();
    assert!(r.is_none());
}

#[test]
fn batch_isolates_a_failed_fetch() {
    let ids = vec![1u64, 2u64, 3u64];
    let bodies = vec![
        Ok(String::from(EXAMPLE_BODY)),
        Err(String::from("connection reset")),
        Ok(String::from("<html><body></body></html>")),
    ];
    let results = process_items(&ids, &bodies);
    assert_eq!(results.len(), 3);
    assert!(results[0].is_ok());
    match &results[1] {
        Err(e) => assert_eq!(e.kind(), ErrorKind::Fetch),
        Ok(_) => panic!("expected a fetch error"),
    }
    assert!(results[2].is_ok());
    assert_eq!(results[0].as_ref().unwrap().appid(), 1);
    assert_eq!(results[2].as_ref().unwrap().appid(), 3);
}

#[test]
fn malformed_locator_is_rejected_before_any_fetch() {
    let r = Page::scrape_url(
        "http://store.steampowered.com/foo/678950/",
        Some(String::from(EXAMPLE_BODY)),
    );
    match r {
        Err(e) => assert_eq!(e.kind(), ErrorKind::Locator),
        Ok(_) => panic!("expected a locator error"),
    }
}

#[test]
fn steamid_decision() {
    let ok = steamid_of_response(200, Some(String::from("76561198000000000")));
    assert_eq!(ok.unwrap(), "76561198000000000");
    match steamid_of_response(404, Some(String::from("76561198000000000"))) {
        Err(e) => assert_eq!(e.kind(), ErrorKind::Lookup),
        Ok(_) => panic!("expected a lookup error"),
    }
    assert!(steamid_of_response(200, None).is_err());
}

#[test]
fn owned_games_decision() {
    let ok = appids_of_response(200, Some(vec![Some(10), None, Some(20)]));
    assert_eq!(ok.unwrap(), vec![10, 20]);
    assert!(appids_of_response(500, Some(vec![Some(10)])).is_err());
    assert!(appids_of_response(200, None).is_err());
}

#[test]
fn error_carries_its_reason() {
    let e = ApiError::new(ErrorKind::Locator, "Invalid Steam game URL");
    assert_eq!(e.reason(), "Invalid Steam game URL");
    assert_eq!(e.kind(), ErrorKind::Locator);
}

#[test]
fn api_client_is_constructed_from_a_key() {
    let _api = Api::new("0123456789ABCDEF");
}
