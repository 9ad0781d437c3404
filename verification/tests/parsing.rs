use sia_rs::errors::SIAError;
use sia_rs::models::{Date, LicenseRole, LicenseSector};
use sia_rs::requests::parsers::{
    assemble, assemble_fields, classify, extract, parse, select_first, string_post_process,
    RawFields,
};

fn card(
    first: &str,
    last: &str,
    number: &str,
    role: &str,
    sector: &str,
    expiry: &str,
    status: &str,
    reason: &str,
    conditions: &str,
) -> String {
    format!(
        "<div class=\"panel well\">\
           <div class=\"row\">\
             <div class=\"col\"><div class=\"group\"><div class=\"value\">{first}</div></div></div>\
             <div class=\"col\"><div class=\"group\"><div class=\"value\">{last}</div></div></div>\
           </div>\
           <div class=\"row\">\
             <div class=\"col\"><div class=\"group\"><div class=\"value\">{number}</div></div></div>\
             <div class=\"col\"><div class=\"group\"><div class=\"value\">{role}</div></div></div>\
             <div class=\"col\"><div class=\"group\"><div class=\"value\">{sector}</div></div></div>\
           </div>\
           <div class=\"row\">\
             <div class=\"col\"><div class=\"group\"><div class=\"value\">{expiry}</div></div></div>\
             <div class=\"col\"><div class=\"group\"><span>{status}</span></div></div>\
           </div>\
           <div class=\"row\">\
             <div class=\"col\"><div>Status reason</div><div><span>{reason}</span></div></div>\
           </div>\
           <div class=\"row\">\
             <div class=\"col\"><div>Licence conditions</div><div>{conditions}</div></div>\
           </div>\
         </div>"
    )
}

fn page(cards: &[String]) -> String {
    format!(
        "<!DOCTYPE html><html><head><title>Register</title></head><body><h1>Results</h1>{}</body></html>",
        cards.concat()
    )
}

fn no_fields() -> RawFields {
    RawFields {
        first_name: None,
        last_name: None,
        license_number: None,
        role: None,
        sector: None,
        expiry: None,
        status: None,
        status_reason: None,
        license_conditions: None,
    }
}

#[test]
fn post_process_trims_whitespace() {
    assert_eq!(string_post_process("  John  "), "John");
    assert_eq!(string_post_process("\n\tJohn Smith\r\n"), "John Smith");
    assert_eq!(string_post_process("John"), "John");
}

#[test]
fn post_process_drops_one_trailing_hyphen() {
    assert_eq!(string_post_process("Active -"), "Active");
    assert_eq!(string_post_process("  Active -  "), "Active");
    assert_eq!(string_post_process("Active--"), "Active-");
    assert_eq!(string_post_process("Active - -"), "Active -");
    assert_eq!(string_post_process("-Active"), "-Active");
    assert_eq!(string_post_process("Door-Supervision"), "Door-Supervision");
}

#[test]
fn post_process_of_blank_text_is_empty() {
    assert_eq!(string_post_process(""), "");
    assert_eq!(string_post_process("   "), "");
    assert_eq!(string_post_process("-"), "");
    assert_eq!(string_post_process("  -  "), "");
}

#[test]
fn post_process_knows_unicode_whitespace() {
    assert_eq!(string_post_process("\u{a0}Zoë\u{2003}"), "Zoë");
    assert_eq!(string_post_process("\u{3000}名前 -\u{3000}"), "名前");
}

#[test]
fn post_process_is_idle_on_normalised_text() {
    for text in ["John", "John Smith", "a-b", "-x", "Zoë", ""] {
        let once = string_post_process(text);
        assert_eq!(once, text);
        assert_eq!(string_post_process(&once), once);
    }
}

#[test]
fn select_first_gives_the_text_of_the_first_match() {
    let fragment = "<ul><li>one <b>big</b> thing</li><li>two</li></ul>";
    assert_eq!(select_first("li", fragment), Some("one big thing".to_string()));
    assert_eq!(select_first("li:nth-of-type(2)", fragment), Some("two".to_string()));
    assert_eq!(select_first("b", fragment), Some("big".to_string()));
}

#[test]
fn select_first_without_a_match_gives_none() {
    let fragment = "<ul><li>one</li></ul>";
    assert_eq!(select_first("span", fragment), None);
    assert_eq!(select_first("li", ""), None);
}

#[test]
fn select_first_with_a_broken_selector_gives_none() {
    assert_eq!(select_first("li >> [", "<ul><li>one</li></ul>"), None);
}

#[test]
fn classify_finds_the_notice_of_no_results() {
    let body = page(&["<p>No results found</p>".to_string()]);
    assert_eq!(classify(&body), Err(SIAError::NoLicensesFound));
}

#[test]
fn classify_finds_the_notice_of_too_many_results() {
    let body = page(&["<p>Too many search results, narrow the search</p>".to_string()]);
    assert_eq!(classify(&body), Err(SIAError::TooManyResults));
}

#[test]
fn classify_looks_for_no_results_first() {
    let body = "Too many search results. No results found.";
    assert_eq!(classify(body), Err(SIAError::NoLicensesFound));
}

#[test]
fn classify_notices_are_exact_phrases() {
    let body = page(&["<p>no results found</p><p>Too many results</p>".to_string()]);
    assert_eq!(classify(&body), Err(SIAError::NoLicenseContainersFound));
}

#[test]
fn classify_without_cards_fails_hard() {
    assert_eq!(classify(""), Err(SIAError::NoLicenseContainersFound));
    let body = page(&["<div class=\"panel\">nothing here</div>".to_string()]);
    assert_eq!(classify(&body), Err(SIAError::NoLicenseContainersFound));
}

#[test]
fn classify_gives_the_cards_in_page_order() {
    let body = page(&[
        "<div class=\"well\"><p>first</p></div>".to_string(),
        "<div class=\"well well-sm\"><p>second</p></div>".to_string(),
    ]);
    assert_eq!(
        classify(&body),
        Ok(vec!["<p>first</p>".to_string(), "<p>second</p>".to_string()])
    );
}

#[test]
fn extract_finds_each_field_at_its_place() {
    let body = page(&[card(
        " John ",
        "Smith -",
        "1012345678901234",
        "Front Line",
        "Door Supervision",
        "31 January 2025",
        "Active",
        "None",
        "No conditions",
    )]);
    let cards = classify(&body).unwrap();
    assert_eq!(cards.len(), 1);
    let fields = extract(&cards[0]);
    assert_eq!(fields.first_name, Some(" John ".to_string()));
    assert_eq!(fields.last_name, Some("Smith -".to_string()));
    assert_eq!(fields.license_number, Some("1012345678901234".to_string()));
    assert_eq!(fields.role, Some("Front Line".to_string()));
    assert_eq!(fields.sector, Some("Door Supervision".to_string()));
    assert_eq!(fields.expiry, Some("31 January 2025".to_string()));
    assert_eq!(fields.status, Some("Active".to_string()));
    assert_eq!(fields.status_reason, Some("None".to_string()));
    assert_eq!(fields.license_conditions, Some("No conditions".to_string()));
}

#[test]
fn parse_reads_a_well_formed_card() {
    let body = page(&[card(
        " John ",
        "Smith -",
        "1012345678901234",
        "Front Line",
        "Door Supervision",
        "31 January 2025",
        "Active",
        "None",
        "No conditions",
    )]);
    let licenses = parse(&body).unwrap();
    assert_eq!(licenses.len(), 1);
    let license = &licenses[0];
    assert_eq!(license.first_name, "John");
    assert_eq!(license.last_name, "Smith");
    assert_eq!(license.license_number, "1012345678901234");
    assert_eq!(license.role, LicenseRole::Frontline);
    assert_eq!(license.sector, LicenseSector::DoorSupervision);
    assert_eq!(license.expiry, Date { year: 2025, month: 1, day: 31 });
    assert_eq!(license.status, "Active");
    assert_eq!(license.status_reason, "None");
    assert_eq!(license.license_conditions, "No conditions");
}

#[test]
fn parse_keeps_the_order_of_the_cards() {
    let body = page(&[
        card("Ann", "Archer", "1", "Front Line", "Security Guard", "1 March 2026", "Active", "", ""),
        card("Bob", "Baker", "2", "Non Front Line", "Key Holding", "2 April 2027", "Expired", "", ""),
        card("Cy", "Cole", "3", "Front Line", "Close Protection", "3 May 2028", "Active", "", ""),
    ]);
    let licenses = parse(&body).unwrap();
    let names: Vec<&str> = licenses.iter().map(|l| l.first_name.as_str()).collect();
    assert_eq!(names, vec!["Ann", "Bob", "Cy"]);
    assert_eq!(licenses[1].role, LicenseRole::NonFrontline);
    assert_eq!(licenses[1].sector, LicenseSector::KeyHolding);
    assert_eq!(licenses[2].expiry, Date { year: 2028, month: 5, day: 3 });
}

#[test]
fn parse_gives_the_notices_as_errors() {
    assert_eq!(parse("<p>No results found</p>"), Err(SIAError::NoLicensesFound));
    assert_eq!(parse("<p>Too many search results</p>"), Err(SIAError::TooManyResults));
    assert_eq!(parse("<p>hello</p>"), Err(SIAError::NoLicenseContainersFound));
}

#[test]
fn parse_fails_on_a_card_without_fields() {
    let body = page(&[
        card("Ann", "Archer", "1", "Front Line", "Security Guard", "1 March 2026", "Active", "", ""),
        "<div class=\"well\"><p>moved</p></div>".to_string(),
    ]);
    assert_eq!(parse(&body), Err(SIAError::RecordUnparseable));
}

#[test]
fn assemble_fails_when_all_nine_fields_are_absent() {
    assert_eq!(assemble_fields(no_fields()), Err(SIAError::RecordUnparseable));
    assert_eq!(assemble("<p>moved</p>"), Err(SIAError::RecordUnparseable));
    assert_eq!(assemble(""), Err(SIAError::RecordUnparseable));
}

#[test]
fn assemble_with_one_field_leaves_the_others_empty() {
    let fields = RawFields { first_name: Some(" John ".to_string()), ..no_fields() };
    let license = assemble_fields(fields).unwrap();
    assert_eq!(license.first_name, "John");
    assert_eq!(license.last_name, "");
    assert_eq!(license.license_number, "");
    assert_eq!(license.role, LicenseRole::Unknown);
    assert_eq!(license.sector, LicenseSector::NoSector);
    assert_eq!(license.expiry, Date { year: 1970, month: 1, day: 1 });
    assert_eq!(license.status, "");
    assert_eq!(license.status_reason, "");
    assert_eq!(license.license_conditions, "");
}

#[test]
fn assemble_with_only_the_expiry_is_a_record() {
    let fields = RawFields { expiry: Some("5 June 2030".to_string()), ..no_fields() };
    let license = assemble_fields(fields).unwrap();
    assert_eq!(license.expiry, Date { year: 2030, month: 6, day: 5 });
    assert_eq!(license.first_name, "");
}

#[test]
fn assemble_from_a_card_with_one_field() {
    let license = assemble("<div><div><div><div> John </div></div></div></div>").unwrap();
    assert_eq!(license.first_name, "John");
    assert_eq!(license.last_name, "");
    assert_eq!(license.role, LicenseRole::Unknown);
    assert_eq!(license.sector, LicenseSector::NoSector);
    assert!(license.expiry.is_sentinel());
}

#[test]
fn assemble_takes_an_invalid_date_as_the_sentinel() {
    let fields = RawFields {
        first_name: Some("John".to_string()),
        expiry: Some("31 February 2024".to_string()),
        ..no_fields()
    };
    let license = assemble_fields(fields).unwrap();
    assert_eq!(license.first_name, "John");
    assert_eq!(license.expiry, Date { year: 1970, month: 1, day: 1 });
    assert_eq!(license.expiry, Date::default());
}

#[test]
fn assemble_takes_an_unreadable_date_as_the_sentinel() {
    for text in ["", "soon", "2025-01-31", "31 Janvier 2025", "31/01/2025"] {
        let fields = RawFields { expiry: Some(text.to_string()), ..no_fields() };
        assert!(assemble_fields(fields).unwrap().expiry.is_sentinel());
    }
}

#[test]
fn assemble_reads_the_date_after_normalising() {
    let fields = RawFields { expiry: Some("  29 February 2024 - ".to_string()), ..no_fields() };
    let license = assemble_fields(fields).unwrap();
    assert_eq!(license.expiry, Date { year: 2024, month: 2, day: 29 });
    assert!(!license.expiry.is_sentinel());
}

#[test]
fn assemble_classifies_role_and_sector() {
    let fields = RawFields {
        role: Some(" Front Line ".to_string()),
        sector: Some("Bogus Category".to_string()),
        ..no_fields()
    };
    let license = assemble_fields(fields).unwrap();
    assert_eq!(license.role, LicenseRole::Frontline);
    assert_eq!(license.sector, LicenseSector::Unknown);
    let fields = RawFields { role: Some("Front Line".to_string()), sector: Some("".to_string()), ..no_fields() };
    let license = assemble_fields(fields).unwrap();
    assert_eq!(license.sector, LicenseSector::NoSector);
}

fn license_expiring(year: i32, month: u32, day: u32) -> sia_rs::LicenseState {
    let fields = RawFields { first_name: Some("John".to_string()), ..no_fields() };
    let mut license = assemble_fields(fields).unwrap();
    license.expiry = Date { year, month, day };
    license
}

#[test]
fn remaining_days_count_the_calendar() {
    let license = license_expiring(2025, 1, 31);
    assert_eq!(license.remaining_days_from(&Date { year: 2025, month: 1, day: 1 }), Some(30));
    assert_eq!(license.remaining_days_from(&Date { year: 2025, month: 1, day: 31 }), Some(0));
    assert_eq!(license.remaining_days_from(&Date { year: 2025, month: 2, day: 1 }), Some(-1));
    assert_eq!(license.remaining_days_from(&Date { year: 2024, month: 1, day: 31 }), Some(366));
    let license = license_expiring(2024, 3, 1);
    assert_eq!(license.remaining_days_from(&Date { year: 2024, month: 2, day: 28 }), Some(2));
    let license = license_expiring(1970, 1, 1);
    assert_eq!(license.remaining_days_from(&Date { year: 1970, month: 1, day: 2 }), Some(-1));
}

#[test]
fn remaining_days_need_dates_of_the_calendar() {
    let license = license_expiring(2025, 1, 31);
    assert_eq!(license.remaining_days_from(&Date { year: 2025, month: 2, day: 30 }), None);
    assert_eq!(license.remaining_days_from(&Date { year: 2025, month: 13, day: 1 }), None);
    assert_eq!(license.remaining_days_from(&Date { year: 2025, month: 0, day: 0 }), None);
    let license = license_expiring(2023, 2, 29);
    assert_eq!(license.remaining_days_from(&Date { year: 2023, month: 1, day: 1 }), None);
}
