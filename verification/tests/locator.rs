use steamscrape::download::wget_to_dir;
use steamscrape::error::{ApiError, ErrorKind};
use steamscrape::urls::{appid_from_url, full_size_url};

fn assert_locator_error<T>(r: Result<T, ApiError>) {
    match r {
        Err(e) => assert_eq!(e.kind(), ErrorKind::Locator),
        Ok(_) => panic!("expected a locator error"),
    }
}

#[test]
fn reads_appid_from_detail_page_url() {
    let r = appid_from_url("http://store.steampowered.com/app/678950/");
    assert_eq!(r.unwrap(), 678950);
}

#[test]
fn rejects_wrong_first_segment() {
    let r = appid_from_url("http://store.steampowered.com/foo/678950/");
    assert_locator_error(r);
}

#[test]
fn rejects_missing_identifier_segment() {
    let r = appid_from_url("http://store.steampowered.com/app");
    assert_locator_error(r);
}

#[test]
fn rejects_non_numeric_identifier() {
    let r = appid_from_url("http://store.steampowered.com/app/notanumber/");
    assert_locator_error(r);
}

#[test]
fn rejects_unparsable_locator() {
    let r = appid_from_url("not a url at all");
    assert_locator_error(r);
}

#[test]
fn rejects_unsegmentable_locator() {
    let r = appid_from_url("mailto:someone@example.com");
    assert_locator_error(r);
}

#[test]
fn rewrites_thumbnail_suffix() {
    assert_eq!(full_size_url("http://img/b.116x65.jpg"), "http://img/b.jpg");
    assert_eq!(full_size_url(".116x65.jpg"), ".jpg");
}

#[test]
fn keeps_other_locators_unchanged() {
    assert_eq!(full_size_url("http://img/b.jpg"), "http://img/b.jpg");
    assert_eq!(full_size_url("http://img/b.116x65.jpga"), "http://img/b.116x65.jpga");
    assert_eq!(full_size_url("b.116x65.png"), "b.116x65.png");
    assert_eq!(full_size_url(""), "");
}

#[test]
fn derives_image_target_from_last_segment() {
    let job = wget_to_dir("http://img/shots/a.jpg", "cache/678950").unwrap();
    assert_eq!(job.url, "http://img/shots/a.jpg");
    assert_eq!(job.path, "cache/678950/a.jpg");
}

#[test]
fn rejects_invalid_image_locator() {
    assert_locator_error(wget_to_dir("not a url", "cache/678950"));
}
