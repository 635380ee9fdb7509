use doctoscrape::extract::get_center_id;
use doctoscrape::scrape::{extract_center_ids, extract_result_elements, ParseError};

#[test]
fn extract_id() {
    let element_id = "search-result-123";
    assert_eq!(get_center_id(&element_id), "123");
}

#[test]
fn extract_id_without_separator_keeps_whole_string() {
    assert_eq!(get_center_id("abc"), "abc");
}

#[test]
fn extract_id_takes_last_separator() {
    assert_eq!(get_center_id("a-b-c"), "c");
    assert_eq!(get_center_id("search-result-"), "");
}

#[test]
fn extract_center_ids_finds_result_elements() {
    let html = "<html><body>\
        <div class=\"dl-search-result\" id=\"search-result-10\">Center A</div>\
        <div class=\"other\" id=\"search-result-99\">Not a result</div>\
        <div class=\"dl-search-result\" id=\"search-result-20\">Center B</div>\
        </body></html>";
    let ids = extract_center_ids(html).unwrap();
    assert_eq!(ids, vec!["10".to_string(), "20".to_string()]);
}

#[test]
fn extract_center_ids_rejects_page_without_matches() {
    let html = "<html><body><p>No results today.</p></body></html>";
    assert_eq!(extract_center_ids(html), Err(ParseError::NoMatches));
}

#[test]
fn extract_result_elements_carries_text_content() {
    let html = "<html><body>\
        <div class=\"dl-search-result\" id=\"search-result-10\">Centre <b>A</b>, Paris</div>\
        </body></html>";
    let els = extract_result_elements(html).unwrap();
    assert_eq!(els.len(), 1);
    assert_eq!(els[0].center_id, "10");
    assert_eq!(els[0].text, "Centre A, Paris");
}

#[test]
fn extract_center_ids_rejects_missing_id_attribute() {
    let html = "<html><body>\
        <div class=\"dl-search-result\" id=\"search-result-10\">Center A</div>\
        <div class=\"dl-search-result\">Center without id</div>\
        </body></html>";
    assert_eq!(extract_center_ids(html), Err(ParseError::MissingId));
}
