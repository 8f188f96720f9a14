//! Tests for the coincidence comparator and the address label.

use address::Address;
use address::AddressStatus;
use address::Mismatch;
use address::StreetNamePreDirectional;
use address::StreetNamePostType;
use address::SubaddressType;

fn base_address() -> Address {
    Address {
        address_number: 123,
        address_number_suffix: None,
        street_name_pre_directional: None,
        street_name: String::from("MAIN"),
        street_name_post_type: StreetNamePostType::Street,
        subaddress_type: None,
        subaddress_identifier: None,
        floor: None,
        building: None,
        zip_code: 97526,
        postal_community: String::from("GRANTS PASS"),
        state_name: String::from("OR"),
        status: AddressStatus::Active,
        object_id: 1,
    }
}

fn copy_address(a: &Address) -> Address {
    Address {
        address_number: a.address_number,
        address_number_suffix: a.address_number_suffix.clone(),
        street_name_pre_directional: a.street_name_pre_directional,
        street_name: a.street_name.clone(),
        street_name_post_type: a.street_name_post_type,
        subaddress_type: a.subaddress_type,
        subaddress_identifier: a.subaddress_identifier.clone(),
        floor: a.floor,
        building: a.building.clone(),
        zip_code: a.zip_code,
        postal_community: a.postal_community.clone(),
        state_name: a.state_name.clone(),
        status: a.status,
        object_id: a.object_id,
    }
}

#[test]
fn self_comparison_is_coincident_without_mismatches() {
    let a = base_address();
    let b = copy_address(&a);
    let outcome = a.coincident(&b);
    assert!(outcome.coincident);
    assert!(outcome.mismatches.is_none());
}

#[test]
fn coincidence_is_symmetric_on_the_verdict() {
    let a = base_address();
    let mut b = copy_address(&a);
    b.floor = Some(2);
    b.object_id = 2;
    let ab = a.coincident(&b);
    let ba = b.coincident(&a);
    assert_eq!(ab.coincident, ba.coincident);
    assert!(ab.coincident);
    let ab_fields = ab.mismatches.unwrap().fields;
    let ba_fields = ba.mismatches.unwrap().fields;
    assert_eq!(ab_fields.len(), 1);
    assert_eq!(ba_fields.len(), 1);
    assert!(matches!(ab_fields[0], Mismatch::Floor(_)));
    assert!(matches!(ba_fields[0], Mismatch::Floor(_)));
}

#[test]
fn identity_difference_yields_no_mismatches() {
    let a = base_address();
    let mut b = copy_address(&a);
    b.street_name = String::from("OAK");
    b.status = AddressStatus::Retired;
    let outcome = a.coincident(&b);
    assert!(!outcome.coincident);
    assert!(outcome.mismatches.is_none());
}

#[test]
fn optional_identity_fields_must_agree_exactly() {
    let a = base_address();
    let mut b = copy_address(&a);
    b.address_number_suffix = Some(String::from("A"));
    assert!(!a.coincident(&b).coincident);

    let mut c = copy_address(&a);
    c.street_name_pre_directional = Some(StreetNamePreDirectional::North);
    assert!(!a.coincident(&c).coincident);

    let mut d = copy_address(&a);
    d.subaddress_identifier = Some(String::from("4"));
    assert!(!a.coincident(&d).coincident);
}

#[test]
fn every_secondary_field_is_checked() {
    let a = base_address();
    let mut b = copy_address(&a);
    b.subaddress_type = Some(SubaddressType::Suite);
    b.floor = Some(3);
    b.building = Some(String::from("B"));
    b.status = AddressStatus::Pending;
    let outcome = a.coincident(&b);
    assert!(outcome.coincident);
    let fields = outcome.mismatches.unwrap().fields;
    assert_eq!(fields.len(), 4);
    assert!(matches!(fields[0], Mismatch::SubaddressType(_)));
    assert!(matches!(fields[1], Mismatch::Floor(_)));
    assert!(matches!(fields[2], Mismatch::Building(_)));
    assert!(matches!(fields[3], Mismatch::Status(_)));
}

#[test]
fn mismatch_messages_render_both_values() {
    match Mismatch::floor(Some(2), None) {
        Mismatch::Floor(message) => assert_eq!(message.as_str(), "Some(2) not equal to None"),
        _ => panic!("wrong mismatch variant"),
    }
    match Mismatch::subaddress_type(Some(SubaddressType::Apartment), Some(SubaddressType::Suite)) {
        Mismatch::SubaddressType(message) => {
            assert_eq!(message.as_str(), "Some(Apartment) not equal to Some(Suite)");
        }
        _ => panic!("wrong mismatch variant"),
    }
    match Mismatch::building(&Some(String::from("A")), &None) {
        Mismatch::Building(message) => {
            assert_eq!(message.as_str(), "Some(\"A\") not equal to None");
        }
        _ => panic!("wrong mismatch variant"),
    }
    match Mismatch::status(AddressStatus::Active, AddressStatus::Retired) {
        Mismatch::Status(message) => {
            assert_eq!(message.as_str(), "Active not equal to Retired");
        }
        _ => panic!("wrong mismatch variant"),
    }
}

#[test]
fn label_renders_all_parts_in_order() {
    let mut a = base_address();
    a.address_number_suffix = Some(String::from("A"));
    a.subaddress_type = Some(SubaddressType::Apartment);
    a.subaddress_identifier = Some(String::from("4"));
    assert_eq!(a.label().as_str(), "123 A MAIN Street Apartment 4");
}

#[test]
fn label_omits_absent_subaddress_entirely() {
    let a = base_address();
    assert_eq!(a.label().as_str(), "123 MAIN Street");
}

#[test]
fn label_renders_identifier_without_type_as_hash() {
    let mut a = base_address();
    a.subaddress_identifier = Some(String::from("4"));
    assert_eq!(a.label().as_str(), "123 MAIN Street #4");
}

#[test]
fn label_renders_type_without_identifier_alone() {
    let mut a = base_address();
    a.subaddress_type = Some(SubaddressType::Suite);
    assert_eq!(a.label().as_str(), "123 MAIN Street Suite");
}

#[test]
fn label_renders_pre_directional_before_street() {
    let mut a = base_address();
    a.street_name_pre_directional = Some(StreetNamePreDirectional::Northwest);
    assert_eq!(a.label().as_str(), "123 Northwest MAIN Street");
}

#[test]
fn label_renders_zero_and_negative_numbers() {
    let mut a = base_address();
    a.address_number = 0;
    assert_eq!(a.label().as_str(), "0 MAIN Street");
    a.address_number = -7;
    assert_eq!(a.label().as_str(), "-7 MAIN Street");
    a.address_number = 98765;
    assert_eq!(a.label().as_str(), "98765 MAIN Street");
}
