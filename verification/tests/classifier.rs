//! Tests for the match classifier and the match record set.

use address::Address;
use address::AddressStatus;
use address::CityAddress;
use address::CountyAddress;
use address::MatchRecords;
use address::MatchStatus;
use address::SourceAddress;
use address::StreetNamePostType;
use address::SubaddressType;

fn source_address() -> Address {
    Address {
        address_number: 450,
        address_number_suffix: None,
        street_name_pre_directional: None,
        street_name: String::from("ROGUE RIVER"),
        street_name_post_type: StreetNamePostType::Avenue,
        subaddress_type: None,
        subaddress_identifier: None,
        floor: None,
        building: None,
        zip_code: 97526,
        postal_community: String::from("GRANTS PASS"),
        state_name: String::from("OR"),
        status: AddressStatus::Active,
        object_id: 10,
    }
}

fn matching_city_candidate(object_id: i64) -> CityAddress {
    CityAddress {
        address_number: 450,
        address_number_suffix: None,
        street_name_pre_directional: None,
        street_name: String::from("ROGUE RIVER"),
        street_name_post_type: StreetNamePostType::Avenue,
        subaddress_type: None,
        subaddress_identifier: None,
        floor: None,
        building: None,
        zip_code: 97526,
        postal_community: String::from("GRANTS PASS"),
        state_name: String::from("OR"),
        status: AddressStatus::Active,
        object_id,
    }
}

fn county_candidate(object_id: i64, post_type: Option<StreetNamePostType>) -> CountyAddress {
    CountyAddress {
        address_number: 450,
        address_number_suffix: None,
        street_name_pre_directional: None,
        street_name: String::from("ROGUE RIVER"),
        street_name_post_type: post_type,
        subaddress_type: None,
        subaddress_identifier: None,
        floor: None,
        zip_code: 97526,
        postal_community: String::from("GRANTS PASS"),
        state_name: String::from("OR"),
        status: AddressStatus::Active,
        object_id,
    }
}

#[test]
fn empty_candidate_list_yields_one_missing_record() {
    let source = source_address();
    let records = MatchRecords::new(&source, &Vec::new());
    assert_eq!(records.len(), 1);
    let record = &records.records[0];
    assert!(matches!(record.match_status, MatchStatus::Missing));
    assert_eq!(record.self_id, 10);
    assert_eq!(record.other_id, None);
    assert_eq!(record.address_label.as_str(), "450 ROGUE RIVER Avenue");
    assert!(record.subaddress_type.is_none());
    assert!(record.floor.is_none());
    assert!(record.building.is_none());
    assert!(record.status.is_none());
}

#[test]
fn single_equal_candidate_yields_one_matching_record() {
    let source = source_address();
    let candidates = vec![SourceAddress::City(matching_city_candidate(77))];
    let records = MatchRecords::new(&source, &candidates);
    assert_eq!(records.len(), 1);
    let record = &records.records[0];
    assert!(matches!(record.match_status, MatchStatus::Matching));
    assert_eq!(record.self_id, 10);
    assert_eq!(record.other_id, Some(77));
    assert!(record.subaddress_type.is_none());
    assert!(record.floor.is_none());
    assert!(record.building.is_none());
    assert!(record.status.is_none());
}

#[test]
fn status_drift_yields_one_divergent_record_per_candidate() {
    let source = source_address();
    let mut candidates = Vec::new();
    for object_id in [21, 22, 23] {
        let mut candidate = matching_city_candidate(object_id);
        candidate.status = AddressStatus::Retired;
        candidates.push(SourceAddress::City(candidate));
    }
    let records = MatchRecords::new(&source, &candidates);
    assert_eq!(records.len(), 3);
    for (index, record) in records.records.iter().enumerate() {
        assert!(matches!(record.match_status, MatchStatus::Divergent));
        assert_eq!(record.other_id, Some(21 + index as i64));
        assert_eq!(
            record.status.as_deref(),
            Some("Active not equal to Retired")
        );
        assert!(record.subaddress_type.is_none());
        assert!(record.floor.is_none());
        assert!(record.building.is_none());
    }
}

#[test]
fn divergent_record_carries_every_drifted_field() {
    let source = source_address();
    let mut candidate = matching_city_candidate(31);
    candidate.floor = Some(2);
    candidate.building = Some(String::from("B"));
    candidate.subaddress_type = Some(SubaddressType::Unit);
    let records = MatchRecords::new(&source, &vec![SourceAddress::City(candidate)]);
    assert_eq!(records.len(), 1);
    let record = &records.records[0];
    assert!(matches!(record.match_status, MatchStatus::Divergent));
    assert_eq!(
        record.subaddress_type.as_deref(),
        Some("None not equal to Some(Unit)")
    );
    assert_eq!(record.floor.as_deref(), Some("None not equal to Some(2)"));
    assert_eq!(
        record.building.as_deref(),
        Some("None not equal to Some(\"B\")")
    );
    assert!(record.status.is_none());
}

#[test]
fn unconvertible_candidates_are_skipped_silently() {
    let source = source_address();
    let candidates = vec![SourceAddress::County(county_candidate(41, None))];
    let records = MatchRecords::new(&source, &candidates);
    assert_eq!(records.len(), 1);
    assert!(matches!(records.records[0].match_status, MatchStatus::Missing));
}

#[test]
fn convertible_county_candidate_matches() {
    let source = source_address();
    let candidates = vec![
        SourceAddress::County(county_candidate(42, Some(StreetNamePostType::Avenue))),
    ];
    let records = MatchRecords::new(&source, &candidates);
    assert_eq!(records.len(), 1);
    let record = &records.records[0];
    assert!(matches!(record.match_status, MatchStatus::Matching));
    assert_eq!(record.other_id, Some(42));
}

#[test]
fn non_coincident_candidates_produce_no_records() {
    let source = source_address();
    let mut far = matching_city_candidate(51);
    far.address_number = 999;
    let candidates = vec![
        SourceAddress::City(far),
        SourceAddress::City(matching_city_candidate(52)),
    ];
    let records = MatchRecords::new(&source, &candidates);
    assert_eq!(records.len(), 1);
    assert!(matches!(records.records[0].match_status, MatchStatus::Matching));
    assert_eq!(records.records[0].other_id, Some(52));
}

#[test]
fn compare_classifies_every_convertible_source() {
    let mut other = matching_city_candidate(61);
    other.address_number = 777;
    other.object_id = 61;
    let sources = vec![
        SourceAddress::City(matching_city_candidate(60)),
        SourceAddress::County(county_candidate(65, None)),
        SourceAddress::City(other),
    ];
    let targets = vec![SourceAddress::City(matching_city_candidate(70))];
    let records = MatchRecords::compare(&sources, &targets);
    // The first source matches the target; the second fails conversion and
    // is skipped; the third is absent from the target list.
    assert_eq!(records.len(), 2);
    assert!(matches!(records.records[0].match_status, MatchStatus::Matching));
    assert_eq!(records.records[0].self_id, 60);
    assert_eq!(records.records[0].other_id, Some(70));
    assert!(matches!(records.records[1].match_status, MatchStatus::Missing));
    assert_eq!(records.records[1].self_id, 61);
}

#[test]
fn filter_keeps_only_the_requested_status_in_order() {
    let mut first = matching_city_candidate(81);
    first.address_number = 1;
    first.object_id = 81;
    let mut second = matching_city_candidate(82);
    second.object_id = 82;
    let mut third = matching_city_candidate(83);
    third.address_number = 3;
    third.object_id = 83;
    let sources = vec![
        SourceAddress::City(first),
        SourceAddress::City(second),
        SourceAddress::City(third),
    ];
    let targets = vec![SourceAddress::City(matching_city_candidate(90))];
    let records = MatchRecords::compare(&sources, &targets);
    assert_eq!(records.len(), 3);

    let missing = records.filter(MatchStatus::Missing);
    assert_eq!(missing.len(), 2);
    assert!(missing.records.iter().all(|r| matches!(r.match_status, MatchStatus::Missing)));
    assert_eq!(missing.records[0].self_id, 81);
    assert_eq!(missing.records[1].self_id, 83);

    let matching = records.filter(MatchStatus::Matching);
    assert_eq!(matching.len(), 1);
    assert_eq!(matching.records[0].self_id, 82);

    let divergent = records.filter(MatchStatus::Divergent);
    assert!(divergent.is_empty());
}

#[test]
fn city_conversion_is_total() {
    let city = matching_city_candidate(95);
    let address = Address::from(city);
    assert_eq!(address.object_id, 95);
    assert_eq!(address.street_name.as_str(), "ROGUE RIVER");
}

#[test]
fn county_conversion_requires_the_post_type() {
    let good = county_candidate(96, Some(StreetNamePostType::Avenue));
    let address = Address::try_from(good).expect("post type present");
    assert_eq!(address.object_id, 96);
    assert_eq!(address.building, None);

    let bad = county_candidate(97, None);
    assert!(Address::try_from(bad).is_err());
}

#[test]
fn batch_carriers_hold_their_records() {
    let city_batch = address::CityAddresses {
        records: vec![matching_city_candidate(101), matching_city_candidate(102)],
    };
    let county_batch = address::CountyAddresses {
        records: vec![county_candidate(103, Some(StreetNamePostType::Avenue))],
    };
    assert_eq!(city_batch.records.len(), 2);
    assert_eq!(county_batch.records.len(), 1);

    let source = source_address();
    let mut candidates: Vec<SourceAddress> = Vec::new();
    for record in city_batch.records {
        candidates.push(SourceAddress::City(record));
    }
    for record in county_batch.records {
        candidates.push(SourceAddress::County(record));
    }
    let records = MatchRecords::new(&source, &candidates);
    assert_eq!(records.len(), 3);
    assert_eq!(records.filter(MatchStatus::Matching).len(), 3);
}
