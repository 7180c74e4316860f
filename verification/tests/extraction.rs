use steamscrape::extract::{extract_properties, extract_screenshots, extract_value, RawElement};

#[test]
fn content_attribute_wins_over_children() {
    let html = "<html><body>\
        <div itemprop=\"name\" content=\"Attr\"><span>Inner</span></div>\
        </body></html>";
    let props = extract_properties(html);
    assert_eq!(props.get("name"), Some("Attr"));
}

#[test]
fn inner_text_used_without_content_or_children() {
    let html = "<html><body>\
        <div itemprop=\"name\">Plain</div>\
        </body></html>";
    let props = extract_properties(html);
    assert_eq!(props.get("name"), Some("Plain"));
}

#[test]
fn element_children_without_content_yield_nothing() {
    let html = "<html><body>\
        <div itemprop=\"name\"><span>Child</span></div>\
        </body></html>";
    let props = extract_properties(html);
    assert_eq!(props.get("name"), None);
}

#[test]
fn later_occurrence_overrides_earlier() {
    let html = "<html><body>\
        <div itemprop=\"name\" content=\"First\"></div>\
        <div itemprop=\"name\" content=\"Second\"></div>\
        </body></html>";
    let props = extract_properties(html);
    assert_eq!(props.get("name"), Some("Second"));
}

#[test]
fn distinct_properties_coexist() {
    let html = "<html><body>\
        <div itemprop=\"name\" content=\"A Game\"></div>\
        <div itemprop=\"image\" content=\"http://img/a.jpg\"></div>\
        </body></html>";
    let props = extract_properties(html);
    assert_eq!(props.get("name"), Some("A Game"));
    assert_eq!(props.get("image"), Some("http://img/a.jpg"));
    assert_eq!(props.get("absent"), None);
}

#[test]
fn value_priority_on_raw_elements() {
    let with_content = RawElement {
        prop: String::from("name"),
        content: Some(String::from("Attr")),
        has_element_children: true,
        inner: String::from("<span>Inner</span>"),
    };
    assert_eq!(extract_value(&with_content), Some("Attr"));

    let leaf = RawElement {
        prop: String::from("name"),
        content: None,
        has_element_children: false,
        inner: String::from("Plain"),
    };
    assert_eq!(extract_value(&leaf), Some("Plain"));

    let with_children = RawElement {
        prop: String::from("name"),
        content: None,
        has_element_children: true,
        inner: String::from("<span>Child</span>"),
    };
    assert_eq!(extract_value(&with_children), None);
}

#[test]
fn collects_gallery_screenshots_in_order() {
    let html = "<html><body>\
        <div class=\"highlight_strip_screenshot\">\
        <img src=\"http://img/one.116x65.jpg\">\
        <img src=\"http://img/two.116x65.jpg\">\
        </div>\
        <img src=\"http://img/elsewhere.jpg\">\
        </body></html>";
    let shots = extract_screenshots(html);
    assert_eq!(shots, vec![
        String::from("http://img/one.116x65.jpg"),
        String::from("http://img/two.116x65.jpg"),
    ]);
}

#[test]
fn no_gallery_yields_no_screenshots() {
    let html = "<html><body><img src=\"http://img/elsewhere.jpg\"></body></html>";
    let shots = extract_screenshots(html);
    assert!(shots.is_empty());
}
