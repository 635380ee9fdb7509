use doctoscrape::decode::decode_detail;
use doctoscrape::report::log_result;
use doctoscrape::scrape::extract_center_ids;

fn payload_with_one_slot() -> &'static str {
    r#"{
        "availabilities": [
            { "date": "2021-05-16", "slots": [] },
            { "date": "2021-05-17", "slots": [
                { "agenda_id": 1, "start_date": "2021-05-17T09:06:00.000+02:00",
                  "end_date": "2021-05-17T09:12:00.000+02:00" } ] }
        ],
        "search_result": {
            "address": "19b Place du Panthéon", "city": "Paris",
            "name_with_title": "Centre COVID - Paris 5",
            "zipcode": "75005", "url": "/centre-de-sante/paris/centre-covid19-paris-5"
        }
    }"#
}

fn payload_without_slots() -> &'static str {
    r#"{
        "availabilities": [
            { "date": "2021-05-16", "slots": [] },
            { "date": "2021-05-18", "slots": [] }
        ],
        "search_result": {
            "address": "2 Rue B", "city": "Paris",
            "name_with_title": "Centre B", "zipcode": "75006", "url": "/centre-b"
        }
    }"#
}

#[test]
fn report_suppresses_excluded_center() {
    let details = decode_detail(payload_with_one_slot()).unwrap();
    let excluded = vec![String::from("75005")];
    assert_eq!(log_result(Ok(details), &excluded), None);
}

#[test]
fn report_suppresses_center_without_slots() {
    let details = decode_detail(payload_without_slots()).unwrap();
    let excluded: Vec<String> = Vec::new();
    assert_eq!(log_result(Ok(details), &excluded), None);
}

#[test]
fn report_formats_center_with_slots() {
    let details = decode_detail(payload_with_one_slot()).unwrap();
    let excluded = vec![String::from("75001")];
    let line = log_result(Ok(details), &excluded).unwrap();
    assert_eq!(
        line,
        "Centre COVID - Paris 5 at 19b Place du Panthéon, 75005 has slots!\n\
         https://doctolib.fr/centre-de-sante/paris/centre-covid19-paris-5\n\
         2021-05-17T09:06:00.000+02:00"
    );
}

#[test]
fn report_keeps_slot_order_across_availabilities() {
    let data = r#"{
        "availabilities": [
            { "date": "d1", "slots": [
                { "agenda_id": 1, "start_date": "t1", "end_date": "e" },
                { "agenda_id": 2, "start_date": "t2", "end_date": "e" } ] },
            { "date": "d2", "slots": [] },
            { "date": "d3", "slots": [
                { "agenda_id": 3, "start_date": "t3", "end_date": "e" } ] }
        ],
        "search_result": {
            "address": "A", "city": "C", "name_with_title": "N",
            "zipcode": "Z", "url": "/u"
        }
    }"#;
    let details = decode_detail(data).unwrap();
    let excluded: Vec<String> = Vec::new();
    let line = log_result(Ok(details), &excluded).unwrap();
    assert_eq!(line, "N at A, Z has slots!\nhttps://doctolib.fr/u\nt1\nt2\nt3");
}

#[test]
fn report_is_silent_on_decode_failure() {
    let result = decode_detail("{ broken");
    assert!(result.is_err());
    let excluded: Vec<String> = Vec::new();
    assert_eq!(log_result(result, &excluded), None);
}

#[test]
fn pipeline_reports_exactly_one_center() {
    let html = "<html><body>\
        <div class=\"dl-search-result\" id=\"search-result-10\">Center 10</div>\
        <div class=\"dl-search-result\" id=\"search-result-20\">Center 20</div>\
        </body></html>";
    let ids = extract_center_ids(html).unwrap();
    assert_eq!(ids, vec!["10".to_string(), "20".to_string()]);

    let excluded: Vec<String> = Vec::new();
    let mut reports: Vec<String> = Vec::new();
    for id in &ids {
        let body = if id == "10" {
            payload_with_one_slot()
        } else {
            payload_without_slots()
        };
        if let Some(line) = log_result(decode_detail(body), &excluded) {
            reports.push(line);
        }
    }
    assert_eq!(reports.len(), 1);
    assert!(reports[0].contains("Centre COVID - Paris 5"));
    assert!(!reports[0].contains("Centre B"));
}

#[test]
fn pipeline_with_exclusion_reports_nothing() {
    let html = "<html><body>\
        <div class=\"dl-search-result\" id=\"search-result-10\">Center 10</div>\
        <div class=\"dl-search-result\" id=\"search-result-20\">Center 20</div>\
        </body></html>";
    let ids = extract_center_ids(html).unwrap();

    let excluded = vec![String::from("75005")];
    let mut reports: Vec<String> = Vec::new();
    for id in &ids {
        let body = if id == "10" {
            payload_with_one_slot()
        } else {
            payload_without_slots()
        };
        if let Some(line) = log_result(decode_detail(body), &excluded) {
            reports.push(line);
        }
    }
    assert!(reports.is_empty());
}
