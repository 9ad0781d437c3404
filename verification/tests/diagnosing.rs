use sia_rs::errors::SIAError;
use sia_rs::requests::diagnostics::{anomalies, diagnose, diagnose_card, Anomaly, Field};
use sia_rs::requests::parse_selectors::{
    CONTAINER_SELECTOR, LICENSE_CONDITIONS_SELECTOR, MAX_HTML_BYTES, MAX_SELECTOR_BYTES,
    STATUS_REASON_SELECTOR, STATUS_SELECTOR,
};
use sia_rs::requests::parsers::{assemble, RawFields};

fn all_fields() -> RawFields {
    RawFields {
        first_name: Some("John".to_string()),
        last_name: Some("Smith".to_string()),
        license_number: Some("1012345678901234".to_string()),
        role: Some("Front Line".to_string()),
        sector: Some("Door Supervision".to_string()),
        expiry: Some("31 January 2025".to_string()),
        status: Some("Active".to_string()),
        status_reason: Some("".to_string()),
        license_conditions: Some("".to_string()),
    }
}

fn none_of_the_fields() -> RawFields {
    RawFields {
        first_name: None,
        last_name: None,
        license_number: None,
        role: None,
        sector: None,
        expiry: None,
        status: None,
        status_reason: None,
        license_conditions: None,
    }
}

#[test]
fn a_complete_card_has_no_anomalies() {
    assert_eq!(anomalies(&all_fields()), vec![]);
}

#[test]
fn a_card_without_fields_is_unparseable() {
    assert_eq!(anomalies(&none_of_the_fields()), vec![Anomaly::Unparseable]);
    assert_eq!(diagnose_card("<p>moved</p>"), vec![Anomaly::Unparseable]);
    assert_eq!(diagnose_card(""), vec![Anomaly::Unparseable]);
}

#[test]
fn each_missing_field_is_listed_in_the_order_of_the_record() {
    let fields = RawFields { status: Some("Active".to_string()), ..none_of_the_fields() };
    assert_eq!(
        anomalies(&fields),
        vec![
            Anomaly::Missing(Field::FirstName),
            Anomaly::Missing(Field::LastName),
            Anomaly::Missing(Field::LicenseNumber),
            Anomaly::Missing(Field::Role),
            Anomaly::UnknownRole,
            Anomaly::Missing(Field::Sector),
            Anomaly::Missing(Field::Expiry),
            Anomaly::Missing(Field::StatusReason),
            Anomaly::Missing(Field::LicenseConditions),
        ]
    );
    let fields = RawFields { status: None, ..all_fields() };
    assert_eq!(anomalies(&fields), vec![Anomaly::Missing(Field::Status)]);
}

#[test]
fn an_empty_text_is_not_a_missing_one() {
    let fields = RawFields {
        first_name: Some("".to_string()),
        sector: Some("".to_string()),
        ..all_fields()
    };
    assert_eq!(anomalies(&fields), vec![]);
}

#[test]
fn an_unknown_sector_is_an_anomaly() {
    let fields = RawFields { sector: Some("Bogus Category".to_string()), ..all_fields() };
    assert_eq!(anomalies(&fields), vec![Anomaly::UnknownSector]);
    let fields = RawFields { sector: None, ..all_fields() };
    assert_eq!(anomalies(&fields), vec![Anomaly::Missing(Field::Sector)]);
}

#[test]
fn an_unknown_role_is_an_anomaly() {
    let fields = RawFields { role: Some("Back Line".to_string()), ..all_fields() };
    assert_eq!(anomalies(&fields), vec![Anomaly::UnknownRole]);
    let fields = RawFields { role: Some("".to_string()), ..all_fields() };
    assert_eq!(anomalies(&fields), vec![Anomaly::UnknownRole]);
}

#[test]
fn an_unreadable_expiry_is_told_from_a_missing_one() {
    let fields = RawFields { expiry: Some("31 February 2024".to_string()), ..all_fields() };
    assert_eq!(anomalies(&fields), vec![Anomaly::UnreadableExpiry]);
    let fields = RawFields { expiry: None, ..all_fields() };
    assert_eq!(anomalies(&fields), vec![Anomaly::Missing(Field::Expiry)]);
    let fields = RawFields { expiry: Some("1 January 1970".to_string()), ..all_fields() };
    assert_eq!(anomalies(&fields), vec![]);
}

#[test]
fn a_card_is_diagnosed_from_its_html() {
    let card = "<div><div><div><div> John </div></div></div></div>";
    assert_eq!(
        diagnose_card(card),
        vec![
            Anomaly::Missing(Field::LastName),
            Anomaly::Missing(Field::LicenseNumber),
            Anomaly::Missing(Field::Role),
            Anomaly::UnknownRole,
            Anomaly::Missing(Field::Sector),
            Anomaly::Missing(Field::Expiry),
            Anomaly::Missing(Field::Status),
            Anomaly::Missing(Field::StatusReason),
            Anomaly::Missing(Field::LicenseConditions),
        ]
    );
}

#[test]
fn a_page_is_diagnosed_card_by_card() {
    let body = "<html><body>\
        <div class=\"well\"><div><div><div><div>John</div></div></div></div></div>\
        <div class=\"well\"><p>moved</p></div>\
        </body></html>";
    let lists = diagnose(body);
    assert_eq!(lists.len(), 2);
    assert_eq!(lists[0].len(), 9);
    assert_eq!(lists[0][0], Anomaly::Missing(Field::LastName));
    assert_eq!(lists[1], vec![Anomaly::Unparseable]);
}

#[test]
fn a_page_without_cards_has_no_anomalies() {
    assert_eq!(diagnose("<p>No results found</p>"), Vec::<Vec<Anomaly>>::new());
    assert_eq!(diagnose("<p>Too many search results</p>"), Vec::<Vec<Anomaly>>::new());
    assert_eq!(diagnose("<p>maintenance</p>"), Vec::<Vec<Anomaly>>::new());
    assert_eq!(diagnose(""), Vec::<Vec<Anomaly>>::new());
}

#[test]
fn the_selectors_are_within_the_bound() {
    assert_eq!(MAX_SELECTOR_BYTES, 256);
    assert_eq!(CONTAINER_SELECTOR.len(), 18);
    assert_eq!(STATUS_SELECTOR.len(), 67);
    assert_eq!(STATUS_REASON_SELECTOR.len(), 67);
    assert!(LICENSE_CONDITIONS_SELECTOR.len() <= MAX_SELECTOR_BYTES);
}

#[test]
fn a_card_beyond_the_bound_is_not_read() {
    assert_eq!(MAX_HTML_BYTES, 536_870_912);
    let mut card = String::from("<div><div><div><div>John</div></div></div></div>");
    assert!(assemble(&card).is_ok());
    let padding = MAX_HTML_BYTES + 1 - card.len();
    card.push_str(&" ".repeat(padding));
    assert_eq!(card.len(), MAX_HTML_BYTES + 1);
    assert_eq!(assemble(&card), Err(SIAError::RecordUnparseable));
    assert_eq!(diagnose_card(&card), vec![Anomaly::Unparseable]);
}
