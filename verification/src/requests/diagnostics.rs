//! What is amiss with a result card that can still be read, or cannot.
//!
//! Nothing here is written to a log: the anomalies of a page are listed
//! as values, card by card, for the caller to report as it sees fit. What
//! counts as an anomaly is decided here and nowhere else.

use crate::models::date::{parsed_date, Date};
use crate::models::licence_state::{classify_role, classify_sector, LicenseRole, LicenseSector};
use crate::requests::parse_selectors::{EXPIRY_FORMAT, MAX_HTML_BYTES};
use crate::requests::parsers::{
    classified, classify, extract, field_text, normalized, raw_record, readable, record_of,
    string_post_process, text_of, texts_of, RawFields, RawRecord,
};
use vstd::prelude::*;

verus! {

/// One of the nine texts of a result card.
#[derive(Debug, Clone, Copy, PartialEq, Eq, Structural)]
pub enum Field {
    FirstName,
    LastName,
    LicenseNumber,
    Role,
    Sector,
    Expiry,
    Status,
    StatusReason,
    LicenseConditions,
}

/// Something amiss with a result card.
#[derive(Debug, Clone, Copy, PartialEq, Eq, Structural)]
pub enum Anomaly {
    /// The card cannot be assembled: it is too long to be read, or holds
    /// none of the nine texts.
    Unparseable,
    /// The text of this field was not found; the record holds what stands
    /// in for it.
    Missing(Field),
    /// The role is none of the vocabulary; the record holds `Unknown`.
    UnknownRole,
    /// The sector is none of the vocabulary; the record holds `Unknown`.
    UnknownSector,
    /// The expiry was found but is no date; the record holds the stand-in
    /// date.
    UnreadableExpiry,
}

/// The list with one more anomaly at its end, if that anomaly is due.
pub open spec fn noted(list: Seq<Anomaly>, due: bool, anomaly: Anomaly) -> Seq<Anomaly> {
    if due {
        list.push(anomaly)
    } else {
        list
    }
}

/// The expiry text was found and cannot be read as a date.
pub open spec fn unreadable_expiry(raw: Option<Seq<char>>) -> bool {
    raw matches Some(t) && parsed_date(normalized(t), EXPIRY_FORMAT@) is None
}

/// The anomalies of a card of which at least one text was found, field by
/// field in the order of the record: for each field that it was not
/// found, and behind that for the role and the sector that the
/// vocabulary does not know them, for the expiry that it is no date.
pub open spec fn field_anomalies(raw: RawRecord) -> Seq<Anomaly> {
    let list = Seq::<Anomaly>::empty();
    let list = noted(list, raw.first_name is None, Anomaly::Missing(Field::FirstName));
    let list = noted(list, raw.last_name is None, Anomaly::Missing(Field::LastName));
    let list = noted(list, raw.license_number is None, Anomaly::Missing(Field::LicenseNumber));
    let list = noted(list, raw.role is None, Anomaly::Missing(Field::Role));
    let list = noted(list, record_of(raw).role == LicenseRole::Unknown, Anomaly::UnknownRole);
    let list = noted(list, raw.sector is None, Anomaly::Missing(Field::Sector));
    let list = noted(
        list,
        record_of(raw).sector == LicenseSector::Unknown,
        Anomaly::UnknownSector,
    );
    let list = noted(list, raw.expiry is None, Anomaly::Missing(Field::Expiry));
    let list = noted(list, unreadable_expiry(raw.expiry), Anomaly::UnreadableExpiry);
    let list = noted(list, raw.status is None, Anomaly::Missing(Field::Status));
    let list = noted(list, raw.status_reason is None, Anomaly::Missing(Field::StatusReason));
    noted(list, raw.license_conditions is None, Anomaly::Missing(Field::LicenseConditions))
}

/// The anomalies of the nine texts of a card: that it cannot be assembled
/// where none was found, else those of its fields.
pub open spec fn anomalies_of(raw: RawRecord) -> Seq<Anomaly> {
    if raw.all_absent() {
        seq![Anomaly::Unparseable]
    } else {
        field_anomalies(raw)
    }
}

/// The anomalies of a card given as HTML: that it cannot be assembled
/// where it is too long to be read, else those of its nine texts.
pub open spec fn card_anomalies(container: Seq<char>) -> Seq<Anomaly> {
    if !readable(container) {
        seq![Anomaly::Unparseable]
    } else {
        anomalies_of(raw_record(container))
    }
}

/// The anomalies of a page: one list for each of its cards, in the order
/// of the cards, and none where the page has no cards to give.
pub open spec fn page_anomalies(body: Seq<char>) -> Seq<Seq<Anomaly>> {
    match classified(body) {
        Err(_) => Seq::empty(),
        Ok(containers) => Seq::new(containers.len(), |i: int| card_anomalies(containers[i])),
    }
}

/// What a list of lists of anomalies holds.
pub open spec fn lists_of(lists: Seq<Vec<Anomaly>>) -> Seq<Seq<Anomaly>> {
    Seq::new(lists.len(), |i: int| lists[i]@)
}

/// Puts an anomaly at the end of the list, if it is due.
fn note(list: &mut Vec<Anomaly>, due: bool, anomaly: Anomaly)
    ensures
        final(list)@ == noted(old(list)@, due, anomaly),
{
    if due {
        list.push(anomaly);
    }
}

/// The text under which a field is classified: the normalised text that
/// was found, or the empty text.
fn class_text(raw: &Option<String>) -> (text: String)
    ensures
        text@ == field_text(text_of(*raw)),
{
    match raw {
        Some(t) => string_post_process(t.as_str()),
        None => String::new(),
    }
}

/// Whether the expiry text was found and cannot be read as a date.
fn expiry_is_unreadable(raw: &Option<String>) -> (r: bool)
    ensures
        r == unreadable_expiry(text_of(*raw)),
{
    match raw {
        Some(t) => {
            let text = string_post_process(t.as_str());
            Date::parse_from_str(text.as_str(), EXPIRY_FORMAT).is_none()
        },
        None => false,
    }
}

/// Lists the anomalies of the nine texts of a card, in the order of the
/// record's fields.
pub fn anomalies(fields: &RawFields) -> (list: Vec<Anomaly>)
    ensures
        list@ == anomalies_of(fields@),
{
    let mut list: Vec<Anomaly> = Vec::new();
    if fields.first_name.is_none() && fields.last_name.is_none()
        && fields.license_number.is_none() && fields.role.is_none() && fields.sector.is_none()
        && fields.expiry.is_none() && fields.status.is_none() && fields.status_reason.is_none()
        && fields.license_conditions.is_none() {
        list.push(Anomaly::Unparseable);
        assert(list@ =~= seq![Anomaly::Unparseable]);
        return list;
    }
    let role = classify_role(class_text(&fields.role).as_str());
    let sector = classify_sector(class_text(&fields.sector).as_str());
    let unreadable = expiry_is_unreadable(&fields.expiry);
    note(&mut list, fields.first_name.is_none(), Anomaly::Missing(Field::FirstName));
    note(&mut list, fields.last_name.is_none(), Anomaly::Missing(Field::LastName));
    note(&mut list, fields.license_number.is_none(), Anomaly::Missing(Field::LicenseNumber));
    note(&mut list, fields.role.is_none(), Anomaly::Missing(Field::Role));
    note(&mut list, role == LicenseRole::Unknown, Anomaly::UnknownRole);
    note(&mut list, fields.sector.is_none(), Anomaly::Missing(Field::Sector));
    note(&mut list, sector == LicenseSector::Unknown, Anomaly::UnknownSector);
    note(&mut list, fields.expiry.is_none(), Anomaly::Missing(Field::Expiry));
    note(&mut list, unreadable, Anomaly::UnreadableExpiry);
    note(&mut list, fields.status.is_none(), Anomaly::Missing(Field::Status));
    note(&mut list, fields.status_reason.is_none(), Anomaly::Missing(Field::StatusReason));
    note(&mut list, fields.license_conditions.is_none(), Anomaly::Missing(Field::LicenseConditions));
    list
}

/// Lists the anomalies of one result card, given as an HTML fragment.
pub fn diagnose_card(container: &str) -> (list: Vec<Anomaly>)
    ensures
        list@ == card_anomalies(container@),
{
    if container.len() > MAX_HTML_BYTES {
        let mut list: Vec<Anomaly> = Vec::new();
        list.push(Anomaly::Unparseable);
        assert(list@ =~= seq![Anomaly::Unparseable]);
        return list;
    }
    let fields = extract(container);
    anomalies(&fields)
}

/// Lists the anomalies of a result page: one list for each of its cards,
/// in page order. A page that shows a notice, or has no cards, has none.
pub fn diagnose(html_body: &str) -> (lists: Vec<Vec<Anomaly>>)
    ensures
        lists_of(lists@) == page_anomalies(html_body@),
{
    let mut lists: Vec<Vec<Anomaly>> = Vec::new();
    let containers = match classify(html_body) {
        Ok(containers) => containers,
        Err(_) => {
            assert(lists_of(lists@) =~= Seq::<Seq<Anomaly>>::empty());
            return lists;
        },
    };
    let ghost cards = texts_of(containers@);
    let mut i: usize = 0;
    while i < containers.len()
        invariant
            i <= containers.len(),
            cards == texts_of(containers@),
            classified(html_body@) == Ok::<Seq<Seq<char>>, crate::errors::SIAError>(cards),
            lists.len() == i,
            forall|j: int| 0 <= j < i ==> (#[trigger] lists[j])@ == card_anomalies(cards[j]),
        decreases containers.len() - i,
    {
        assert(cards[i as int] == containers[i as int]@);
        let list = diagnose_card(containers[i].as_str());
        lists.push(list);
        i += 1;
    }
    assert(lists_of(lists@) =~= page_anomalies(html_body@));
    lists
}

/// The list of a card names the sector as unknown exactly when the
/// record's sector is `Unknown`, the role exactly when the record's role
/// is `Unknown`, and the expiry as unreadable exactly when it was found
/// and is no date.
pub proof fn lemma_unknown_is_reported(raw: RawRecord)
    requires
        !raw.all_absent(),
    ensures
        anomalies_of(raw).contains(Anomaly::UnknownSector) <==> record_of(raw).sector
            == LicenseSector::Unknown,
        anomalies_of(raw).contains(Anomaly::UnknownRole) <==> record_of(raw).role
            == LicenseRole::Unknown,
        anomalies_of(raw).contains(Anomaly::UnreadableExpiry) <==> unreadable_expiry(raw.expiry),
        !anomalies_of(raw).contains(Anomaly::Unparseable),
{
    lemma_field_anomaly_listed(raw, Anomaly::UnknownSector);
    lemma_field_anomaly_listed(raw, Anomaly::UnknownRole);
    lemma_field_anomaly_listed(raw, Anomaly::UnreadableExpiry);
    lemma_field_anomaly_listed(raw, Anomaly::Unparseable);
}

/// The list of a card names a field as missing exactly when its text was
/// not found.
pub proof fn lemma_missing_is_reported(raw: RawRecord)
    requires
        !raw.all_absent(),
    ensures
        anomalies_of(raw).contains(Anomaly::Missing(Field::FirstName)) <==> raw.first_name is None,
        anomalies_of(raw).contains(Anomaly::Missing(Field::LastName)) <==> raw.last_name is None,
        anomalies_of(raw).contains(Anomaly::Missing(Field::LicenseNumber))
            <==> raw.license_number is None,
        anomalies_of(raw).contains(Anomaly::Missing(Field::Role)) <==> raw.role is None,
        anomalies_of(raw).contains(Anomaly::Missing(Field::Sector)) <==> raw.sector is None,
        anomalies_of(raw).contains(Anomaly::Missing(Field::Expiry)) <==> raw.expiry is None,
        anomalies_of(raw).contains(Anomaly::Missing(Field::Status)) <==> raw.status is None,
        anomalies_of(raw).contains(Anomaly::Missing(Field::StatusReason))
            <==> raw.status_reason is None,
        anomalies_of(raw).contains(Anomaly::Missing(Field::LicenseConditions))
            <==> raw.license_conditions is None,
{
    lemma_field_anomaly_listed(raw, Anomaly::Missing(Field::FirstName));
    lemma_field_anomaly_listed(raw, Anomaly::Missing(Field::LastName));
    lemma_field_anomaly_listed(raw, Anomaly::Missing(Field::LicenseNumber));
    lemma_field_anomaly_listed(raw, Anomaly::Missing(Field::Role));
    lemma_field_anomaly_listed(raw, Anomaly::Missing(Field::Sector));
    lemma_field_anomaly_listed(raw, Anomaly::Missing(Field::Expiry));
    lemma_field_anomaly_listed(raw, Anomaly::Missing(Field::Status));
    lemma_field_anomaly_listed(raw, Anomaly::Missing(Field::StatusReason));
    lemma_field_anomaly_listed(raw, Anomaly::Missing(Field::LicenseConditions));
}

/// The condition on which an anomaly stands in the list of a card's
/// fields.
pub open spec fn due(raw: RawRecord, anomaly: Anomaly) -> bool {
    match anomaly {
        Anomaly::Unparseable => false,
        Anomaly::Missing(Field::FirstName) => raw.first_name is None,
        Anomaly::Missing(Field::LastName) => raw.last_name is None,
        Anomaly::Missing(Field::LicenseNumber) => raw.license_number is None,
        Anomaly::Missing(Field::Role) => raw.role is None,
        Anomaly::Missing(Field::Sector) => raw.sector is None,
        Anomaly::Missing(Field::Expiry) => raw.expiry is None,
        Anomaly::Missing(Field::Status) => raw.status is None,
        Anomaly::Missing(Field::StatusReason) => raw.status_reason is None,
        Anomaly::Missing(Field::LicenseConditions) => raw.license_conditions is None,
        Anomaly::UnknownRole => record_of(raw).role == LicenseRole::Unknown,
        Anomaly::UnknownSector => record_of(raw).sector == LicenseSector::Unknown,
        Anomaly::UnreadableExpiry => unreadable_expiry(raw.expiry),
    }
}

/// An anomaly stands in the list of a card's fields exactly when it is
/// due.
pub proof fn lemma_field_anomaly_listed(raw: RawRecord, anomaly: Anomaly)
    ensures
        field_anomalies(raw).contains(anomaly) <==> due(raw, anomaly),
{
    let l0 = Seq::<Anomaly>::empty();
    let l1 = noted(l0, raw.first_name is None, Anomaly::Missing(Field::FirstName));
    let l2 = noted(l1, raw.last_name is None, Anomaly::Missing(Field::LastName));
    let l3 = noted(l2, raw.license_number is None, Anomaly::Missing(Field::LicenseNumber));
    let l4 = noted(l3, raw.role is None, Anomaly::Missing(Field::Role));
    let l5 = noted(l4, record_of(raw).role == LicenseRole::Unknown, Anomaly::UnknownRole);
    let l6 = noted(l5, raw.sector is None, Anomaly::Missing(Field::Sector));
    let l7 = noted(l6, record_of(raw).sector == LicenseSector::Unknown, Anomaly::UnknownSector);
    let l8 = noted(l7, raw.expiry is None, Anomaly::Missing(Field::Expiry));
    let l9 = noted(l8, unreadable_expiry(raw.expiry), Anomaly::UnreadableExpiry);
    let l10 = noted(l9, raw.status is None, Anomaly::Missing(Field::Status));
    let l11 = noted(l10, raw.status_reason is None, Anomaly::Missing(Field::StatusReason));
    let l12 = noted(
        l11,
        raw.license_conditions is None,
        Anomaly::Missing(Field::LicenseConditions),
    );
    assert(!l0.contains(anomaly));
    lemma_noted_contains(l0, raw.first_name is None, Anomaly::Missing(Field::FirstName), anomaly);
    lemma_noted_contains(l1, raw.last_name is None, Anomaly::Missing(Field::LastName), anomaly);
    lemma_noted_contains(
        l2,
        raw.license_number is None,
        Anomaly::Missing(Field::LicenseNumber),
        anomaly,
    );
    lemma_noted_contains(l3, raw.role is None, Anomaly::Missing(Field::Role), anomaly);
    lemma_noted_contains(
        l4,
        record_of(raw).role == LicenseRole::Unknown,
        Anomaly::UnknownRole,
        anomaly,
    );
    lemma_noted_contains(l5, raw.sector is None, Anomaly::Missing(Field::Sector), anomaly);
    lemma_noted_contains(
        l6,
        record_of(raw).sector == LicenseSector::Unknown,
        Anomaly::UnknownSector,
        anomaly,
    );
    lemma_noted_contains(l7, raw.expiry is None, Anomaly::Missing(Field::Expiry), anomaly);
    lemma_noted_contains(l8, unreadable_expiry(raw.expiry), Anomaly::UnreadableExpiry, anomaly);
    lemma_noted_contains(l9, raw.status is None, Anomaly::Missing(Field::Status), anomaly);
    lemma_noted_contains(
        l10,
        raw.status_reason is None,
        Anomaly::Missing(Field::StatusReason),
        anomaly,
    );
    lemma_noted_contains(
        l11,
        raw.license_conditions is None,
        Anomaly::Missing(Field::LicenseConditions),
        anomaly,
    );
    assert(field_anomalies(raw) == l12);
}

/// A list to which an anomaly was noted holds what it held before, and
/// that anomaly if it was due.
pub proof fn lemma_noted_contains(list: Seq<Anomaly>, due: bool, noted_one: Anomaly, sought: Anomaly)
    ensures
        noted(list, due, noted_one).contains(sought) <==> list.contains(sought) || (due
            && noted_one == sought),
{
    if due {
        let longer = list.push(noted_one);
        if list.contains(sought) {
            let i = choose|i: int| 0 <= i < list.len() && list[i] == sought;
            assert(longer[i] == sought);
        }
        if noted_one == sought {
            assert(longer[list.len() as int] == sought);
        }
        if longer.contains(sought) {
            let i = choose|i: int| 0 <= i < longer.len() && longer[i] == sought;
            if i < list.len() {
                assert(list[i] == sought);
            }
        }
    }
}

} // verus!
