use doctoscrape::decode::decode_detail;
use doctoscrape::model::DecodeError;

#[test]
fn deserialize_details() {
    let data_string = r#"{
      "availabilities": [
        { "date": "2021-05-16", "slots": [] },
        { "date": "2021-05-17", "slots": [
            {
              "agenda_id": 441940,
              "end_date": "2021-05-17T09:12:00.000+02:00",
              "practitioner_agenda_id": null,
              "start_date": "2021-05-17T09:06:00.000+02:00",
              "steps": [
                {
                  "agenda_id": 441940,
                  "end_date": "2021-05-17T09:12:00.000+02:00",
                  "practitioner_agenda_id": null,
                  "start_date": "2021-05-17T09:06:00.000+02:00",
                  "visit_motive_id": 2700183
                },
                {
                  "agenda_id": 439320,
                  "end_date": "2021-06-25T08:36:00.000+02:00",
                  "practitioner_agenda_id": null,
                  "start_date": "2021-06-25T08:30:00.000+02:00",
                  "visit_motive_id": 2700184
                }
              ]
            }
          ]
        }
      ],
      "message": "Aucun rendez-vous n'est disponible pour le moment mais de nombreux créneaux vont être mis en ligne dans les jours à venir. Vous pouvez également prendre rendez-vous dans un autre lieu de vaccination.",
      "number_future_vaccinations": 1654,
      "reason": "no_availabilities",
      "search_result": {
        "address": "19b Place du Panthéon",
        "agenda_ids": [409357],
        "booking_temporary_disabled": false,
        "city": "Paris",
        "cloudinary_public_id": "uqpagkshgbmfxde5hi9w",
        "exact_match": null,
        "first_name": null,
        "id": 5965978,
        "is_directory": false,
        "landline_number": null,
        "last_name":
        "Centre COVID - Paris 5 ",
        "link": "/centre-de-sante/paris/centre-covid19-paris-5",
        "name_with_title": "Centre COVID - Paris 5",
        "organization_status": "Centre de santé",
        "place_id": null,
        "position": {
          "lat": 48.8457007,
          "lng": 2.344909
        },
        "priority_speciality": false,
        "profile_id": 188567,
        "resetVisitMotive": false,
        "speciality": null,
        "telehealth": false,
        "toFinalizeStep": false,
        "toFinalizeStepWithoutState": false,
        "top_specialities": ["1 salle de vaccination"],
        "url": "/centre-de-sante/paris/centre-covid19-paris-5?highlight[speciality_ids][]=5494",
        "visit_motive_id": 2860338,
        "visit_motive_name": "1re injection vaccin COVID-19 (Pfizer-BioNTech)",
        "zipcode": "75005"
      },
      "total": 0
    }"#;
    let details = decode_detail(data_string).unwrap();
    assert_eq!(details.search_result.zipcode, "75005");
    assert_eq!(details.search_result.address, "19b Place du Panthéon");
    assert_eq!(details.search_result.city, "Paris");
    assert_eq!(
        details.search_result.name_with_title,
        "Centre COVID - Paris 5"
    );
    assert_eq!(details.availabilities.len(), 2);
    let first_availability = &details.availabilities[0];
    assert_eq!(first_availability.date, "2021-05-16");
    assert!(first_availability.slots.is_empty());
    let second_availability = &details.availabilities[1];
    assert_eq!(second_availability.date, "2021-05-17");
    assert_eq!(second_availability.slots.len(), 1);
    assert_eq!(
        second_availability.slots[0].start_date,
        "2021-05-17T09:06:00.000+02:00"
    );
}

#[test]
fn decode_keeps_slot_fields() {
    let data = r#"{
        "search_result": {
            "address": "1 Rue A", "city": "Paris",
            "name_with_title": "Centre", "zipcode": "75001", "url": "/c"
        },
        "availabilities": [
            { "date": "2021-05-17", "slots": [
                { "agenda_id": 7, "start_date": "s1", "end_date": "e1" },
                { "end_date": "e2", "agenda_id": 8, "start_date": "s2" }
            ] }
        ]
    }"#;
    let details = decode_detail(data).unwrap();
    let slots = &details.availabilities[0].slots;
    assert_eq!(slots.len(), 2);
    assert_eq!(slots[0].agenda_id, 7);
    assert_eq!(slots[0].start_date, "s1");
    assert_eq!(slots[0].end_date, "e1");
    assert_eq!(slots[1].agenda_id, 8);
    assert_eq!(slots[1].start_date, "s2");
    assert_eq!(slots[1].end_date, "e2");
}

#[test]
fn decode_decodes_string_escapes() {
    let data = "{\
        \"availabilities\": [],\
        \"search_result\": {\
            \"address\": \"line1\\nline2\",\
            \"city\": \"Caf\\u00e9\",\
            \"name_with_title\": \"Smile \\ud83d\\ude00\",\
            \"zipcode\": \"75\\\"001\",\
            \"url\": \"/a\\\\b\\/c\"\
        }\
    }";
    let details = decode_detail(data).unwrap();
    assert_eq!(details.search_result.address, "line1\nline2");
    assert_eq!(details.search_result.city, "Café");
    assert_eq!(details.search_result.name_with_title, "Smile \u{1F600}");
    assert_eq!(details.search_result.zipcode, "75\"001");
    assert_eq!(details.search_result.url, "/a\\b/c");
}

#[test]
fn decode_rejects_malformed_payloads() {
    assert!(matches!(
        decode_detail("not json"),
        Err(DecodeError::Malformed)
    ));
    assert!(matches!(decode_detail(""), Err(DecodeError::Malformed)));
    // missing search_result
    assert!(matches!(
        decode_detail(r#"{ "availabilities": [] }"#),
        Err(DecodeError::Malformed)
    ));
    // wrong type for availabilities
    assert!(matches!(
        decode_detail(
            r#"{ "availabilities": 42, "search_result": {
                "address": "a", "city": "c", "name_with_title": "n",
                "zipcode": "z", "url": "u" } }"#
        ),
        Err(DecodeError::Malformed)
    ));
    // missing required slot field
    assert!(matches!(
        decode_detail(
            r#"{ "availabilities": [ { "date": "d", "slots": [
                { "agenda_id": 1, "start_date": "s" } ] } ],
                "search_result": { "address": "a", "city": "c",
                "name_with_title": "n", "zipcode": "z", "url": "u" } }"#
        ),
        Err(DecodeError::Malformed)
    ));
    // agenda_id out of range for u32
    assert!(matches!(
        decode_detail(
            r#"{ "availabilities": [ { "date": "d", "slots": [
                { "agenda_id": 99999999999, "start_date": "s", "end_date": "e" } ] } ],
                "search_result": { "address": "a", "city": "c",
                "name_with_title": "n", "zipcode": "z", "url": "u" } }"#
        ),
        Err(DecodeError::Malformed)
    ));
    // trailing content after the object
    assert!(matches!(
        decode_detail(
            r#"{ "availabilities": [], "search_result": { "address": "a",
                "city": "c", "name_with_title": "n", "zipcode": "z",
                "url": "u" } } extra"#
        ),
        Err(DecodeError::Malformed)
    ));
}

#[test]
fn decode_skips_deeply_nested_unknown_fields() {
    let data = r#"{
        "message": "none",
        "position": { "lat": 48.8457007, "lng": -2.3e-4, "tags": [true, false, null] },
        "agenda_ids": [1, 2, 3],
        "availabilities": [],
        "nested": { "a": { "b": [ { "c": "dA" } ] } },
        "search_result": {
            "address": "a", "city": "c", "name_with_title": "n",
            "zipcode": "z", "url": "u", "extra": { "deep": [ {}, [] ] }
        },
        "total": 0
    }"#;
    let details = decode_detail(data).unwrap();
    assert_eq!(details.availabilities.len(), 0);
    assert_eq!(details.search_result.zipcode, "z");
}
