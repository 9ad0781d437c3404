use sia_rs::models::payloads::{SEARCH_LICENSE_NUM_URL, SEARCH_NAME_URL};
use sia_rs::models::{
    LicenseRole, LicenseSector, Query, SearchByLicense, SearchByName, SearchPayload,
};

fn pair(name: &str, value: &str) -> (String, String) {
    (name.to_string(), value.to_string())
}

#[test]
fn new_query_is_empty() {
    let query = Query::new();
    assert!(!query.has_any());
    assert_eq!(query.first_name, None);
    assert_eq!(query.license_no, None);
    assert_eq!(query.to_payload(), None);
}

#[test]
fn setters_set_their_own_field() {
    let query = Query::new()
        .with_last_name("Smith".to_string())
        .with_first_name("John".to_string())
        .with_middle_name("James".to_string())
        .with_date_of_birth("01/01/1970".to_string())
        .with_role(LicenseRole::Frontline)
        .with_license_sector(LicenseSector::DoorSupervision)
        .build();
    assert_eq!(query.last_name, Some("Smith".to_string()));
    assert_eq!(query.first_name, Some("John".to_string()));
    assert_eq!(query.middle_name, Some("James".to_string()));
    assert_eq!(query.date_of_birth, Some("01/01/1970".to_string()));
    assert_eq!(query.role, Some("Front Line".to_string()));
    assert_eq!(query.license_sector, Some("Door Supervision".to_string()));
    assert_eq!(query.license_no, None);
    assert!(query.has_any());
}

#[test]
fn license_number_has_two_setters() {
    let query = Query::new().with_license_no("123456".to_string());
    assert_eq!(query.license_no, Some("123456".to_string()));
    let query = Query::new().with_license_number("654321".to_string());
    assert_eq!(query.license_no, Some("654321".to_string()));
    assert!(query.has_any());
}

#[test]
fn a_setter_overwrites() {
    let query =
        Query::new().with_first_name("John".to_string()).with_first_name("Jane".to_string());
    assert_eq!(query.first_name, Some("Jane".to_string()));
}

#[test]
fn license_only_query_sends_one_field() {
    let query = Query::new().with_license_no("123456".to_string());
    let payload = query.to_payload().unwrap();
    assert_eq!(
        payload,
        SearchPayload::ByLicense(SearchByLicense { license_no: "123456".to_string() })
    );
    assert_eq!(payload.to_params(), vec![pair("LicenseNo", "123456")]);
    assert_eq!(payload.url(), SEARCH_LICENSE_NUM_URL);
    assert_eq!(
        query.to_search_by_name_payload(),
        SearchByName::default()
    );
}

#[test]
fn license_number_wins_over_names() {
    let query =
        Query::new().with_last_name("Smith".to_string()).with_license_no("123456".to_string());
    let payload = query.to_payload().unwrap();
    assert_eq!(payload.to_params(), vec![pair("LicenseNo", "123456")]);
}

#[test]
fn name_query_sends_six_fields() {
    let query = Query::new()
        .with_last_name("Smith".to_string())
        .with_first_name("John".to_string())
        .with_role(LicenseRole::NonFrontline)
        .with_license_sector(LicenseSector::PublicSpaceSurveillance);
    let payload = query.to_payload().unwrap();
    assert_eq!(payload.url(), SEARCH_NAME_URL);
    assert_eq!(
        payload.to_params(),
        vec![
            pair("Surname", "Smith"),
            pair("FirstName", "John"),
            pair("MiddleName", ""),
            pair("DateOfBirth", ""),
            pair("Role", "Non Front Line"),
            pair("LicenseSector", "Public Space Surveillance (CCTV)"),
        ]
    );
}

#[test]
fn payloads_of_an_empty_query_are_empty() {
    let query = Query::new();
    assert_eq!(query.to_search_by_license_payload(), SearchByLicense { license_no: String::new() });
    assert_eq!(query.to_search_by_name_payload(), SearchByName::default());
    assert_eq!(SearchByName::default().last_name, "");
    assert_eq!(SearchByName::default().to_params().len(), 6);
}

#[test]
fn the_addresses_are_those_of_the_register() {
    assert_eq!(
        SEARCH_LICENSE_NUM_URL,
        "https://services.sia.homeoffice.gov.uk/PublicRegister/SearchPublicRegisterByLicence"
    );
    assert_eq!(
        SEARCH_NAME_URL,
        "https://services.sia.homeoffice.gov.uk/PublicRegister/SearchPublicRegisterBySurname"
    );
}
