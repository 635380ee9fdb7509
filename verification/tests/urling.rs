use doctoscrape::urls::{detail_url, search_page_url, u64_to_string};

#[test]
fn page_zero_has_no_page_parameter() {
    assert_eq!(
        search_page_url("75001", "paris", 0),
        "https://www.doctolib.fr/vaccination-covid-19/75001-paris\
         ?ref_visit_motive_ids[]=6970&ref_visit_motive_ids[]=7005&force_max_limit=2"
    );
}

#[test]
fn page_one_maps_to_external_page_two() {
    assert_eq!(
        search_page_url("75001", "paris", 1),
        "https://www.doctolib.fr/vaccination-covid-19/75001-paris\
         ?ref_visit_motive_ids[]=6970&ref_visit_motive_ids[]=7005&force_max_limit=2&page=2"
    );
}

#[test]
fn page_index_is_shifted_by_one() {
    assert_eq!(
        search_page_url("31000", "toulouse", 5),
        "https://www.doctolib.fr/vaccination-covid-19/31000-toulouse\
         ?ref_visit_motive_ids[]=6970&ref_visit_motive_ids[]=7005&force_max_limit=2&page=6"
    );
}

#[test]
fn page_index_does_not_overflow() {
    let url = search_page_url("75001", "paris", u32::MAX);
    assert!(url.ends_with("&page=4294967296"));
}

#[test]
fn detail_url_embeds_center_id() {
    assert_eq!(
        detail_url("5965978"),
        "https://www.doctolib.fr/search_results/5965978.json\
         ?limit=4&ref_visit_motive_ids[]=6970&ref_visit_motive_ids[]=7005\
         &speciality_id=5494&search_result_format=json&force_max_limit=2"
    );
}

#[test]
fn decimal_rendering() {
    assert_eq!(u64_to_string(0), "0");
    assert_eq!(u64_to_string(7), "7");
    assert_eq!(u64_to_string(10), "10");
    assert_eq!(u64_to_string(441940), "441940");
    assert_eq!(u64_to_string(u64::MAX), "18446744073709551615");
}
