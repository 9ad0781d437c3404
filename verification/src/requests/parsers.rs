//! Reads licence records out of a result page.
//!
//! The page is HTML. Parsing it and matching CSS selectors against it is
//! the work of the `scraper` crate; the two functions that call it are the
//! only trusted ones here. What they return is named, and every rule of
//! this module is stated and proved over those names: which notice ends
//! the reading, when a card counts as unreadable, how a field's text is
//! normalised and what stands in for a field that is missing.
//!
//! `scraper` panics on a text of more than 2^32 bytes, and on less where
//! its buffers grow. So a page or a card beyond `MAX_HTML_BYTES` is never
//! handed to it, and counts as one whose layout is not the expected one.

use crate::errors::SIAError;
use crate::models::date::{parsed_date, Date};
use crate::models::licence_state::{
    classify_role, classify_sector, key_of, lemma_blank_text_classes, role_of, sector_of,
    LicenseRecord, LicenseRole, LicenseSector, LicenseState,
};
use crate::requests::parse_selectors::{
    CONTAINER_SELECTOR, EXPIRY_FORMAT, EXPIRY_SELECTOR, FIRST_NAME_SELECTOR, LAST_NAME_SELECTOR,
    LICENSE_CONDITIONS_SELECTOR, LICENSE_NUMBER_SELECTOR, MAX_HTML_BYTES, MAX_SELECTOR_BYTES,
    NO_RESULTS_NOTICE, ROLE_SELECTOR, SECTOR_SELECTOR, STATUS_REASON_SELECTOR, STATUS_SELECTOR,
    TOO_MANY_RESULTS_NOTICE,
};
use crate::text::{
    contains, contains_text, is_trimmed, lemma_trimmed_is_trimmed, skip_leading, skip_trailing,
    to_chars, trimmed,
};
use vstd::prelude::*;

verus! {

/// The text of the first element of the HTML fragment `fragment` that
/// matches the CSS selector `selector`: the text nodes below that element,
/// joined in document order. `None` where no element matches, which
/// includes a `selector` that is no valid CSS selector.
pub uninterp spec fn first_match_text(selector: Seq<char>, fragment: Seq<char>) -> Option<
    Seq<char>,
>;

/// The inner HTML of each element of the HTML document `document` that
/// matches the CSS selector `selector`, in the order in which `scraper`
/// yields the matches. Empty where no element matches, which includes a
/// `selector` that is no valid CSS selector.
pub uninterp spec fn matched_inner_html(selector: Seq<char>, document: Seq<char>) -> Seq<
    Seq<char>,
>;

/// The characters of a text that may be missing.
pub open spec fn text_of(text: Option<String>) -> Option<Seq<char>> {
    match text {
        Some(t) => Some(t@),
        None => None,
    }
}

/// The characters of each text of a list.
pub open spec fn texts_of(texts: Seq<String>) -> Seq<Seq<char>> {
    Seq::new(texts.len(), |i: int| texts[i]@)
}

/// The length of a text in bytes, as UTF-8, which is what `str::len`
/// gives.
pub open spec fn byte_len(text: Seq<char>) -> usize {
    vstd::utf8::encode_utf8(text).len() as usize
}

/// The text is short enough to be handed to the HTML parser.
pub open spec fn readable(html: Seq<char>) -> bool {
    byte_len(html) <= MAX_HTML_BYTES
}

/// The text of the first element of a fragment that matches a selector.
///
/// Trusted: parses the selector with `scraper::Selector::parse` and the
/// fragment with `scraper::Html::parse_fragment`, takes the first element
/// that `scraper::Html::select` yields and joins what
/// `scraper::ElementRef::text` yields for it. The contract names that text
/// and claims nothing else of it. A selector that `scraper` rejects gives
/// `None`, as a selector without a match does.
///
/// The two bounds keep the inputs out on which `scraper` does not return:
/// its `tendril` buffers refuse more than `u32::MAX` bytes at once and
/// more than 2^31 bytes where they grow, and its selector parser calls
/// itself once for each level of nesting.
#[verifier::external_body]
pub fn select_first(selector: &str, fragment: &str) -> (text: Option<String>)
    requires
        byte_len(selector@) <= MAX_SELECTOR_BYTES,
        readable(fragment@),
    ensures
        text_of(text) == first_match_text(selector@, fragment@),
{
    let selector = match scraper::Selector::parse(selector) {
        Ok(selector) => selector,
        Err(_) => return None,
    };
    scraper::Html::parse_fragment(fragment).select(&selector).next().map(
        |element| element.text().collect::<String>(),
    )
}

/// The inner HTML of every element of a document that matches a selector.
///
/// Trusted: parses the selector with `scraper::Selector::parse` and the
/// document with `scraper::Html::parse_document`, and collects
/// `scraper::ElementRef::inner_html` of each element that
/// `scraper::Html::select` yields, in that order. The contract names the
/// list and claims nothing else of it. A selector that `scraper` rejects
/// gives the empty list, as a selector without a match does.
///
/// The two bounds are those of [`select_first`], for the same reasons. A
/// fragment that is given out may be longer than the document, since it
/// is written anew, with `&`, `<` and `>` as entities.
#[verifier::external_body]
pub(crate) fn select_inner_html(selector: &str, document: &str) -> (fragments: Vec<String>)
    requires
        byte_len(selector@) <= MAX_SELECTOR_BYTES,
        readable(document@),
    ensures
        texts_of(fragments@) == matched_inner_html(selector@, document@),
{
    let selector = match scraper::Selector::parse(selector) {
        Ok(selector) => selector,
        Err(_) => return Vec::new(),
    };
    scraper::Html::parse_document(document).select(&selector).map(
        |element| element.inner_html(),
    ).collect()
}

/// A field's text as a record holds it: without surrounding whitespace,
/// and, where a hyphen ended it, without that one hyphen and the
/// whitespace before it.
pub open spec fn normalized(s: Seq<char>) -> Seq<char> {
    let t = trimmed(s);
    if t.len() > 0 && t.last() == '-' {
        trimmed(t.drop_last())
    } else {
        t
    }
}

/// Normalises the text of a field: trims it, drops one trailing hyphen if
/// there is one, and trims again.
pub fn string_post_process(input: &str) -> (output: String)
    ensures
        output@ == normalized(input@),
        is_trimmed(output@),
{
    let cs = to_chars(input);
    let n: usize = cs.len();
    assert(cs@.subrange(0, n as int) =~= input@);
    let from: usize = skip_leading(&cs, 0, n);
    let to: usize = skip_trailing(&cs, from, n);
    proof {
        lemma_trimmed_is_trimmed(input@);
    }
    if to > from && cs[to - 1] == '-' {
        assert(cs@.subrange(from as int, to as int).drop_last() =~= cs@.subrange(
            from as int,
            to - 1,
        ));
        let inner_from: usize = skip_leading(&cs, from, to - 1);
        let inner_to: usize = skip_trailing(&cs, inner_from, to - 1);
        proof {
            lemma_trimmed_is_trimmed(trimmed(input@).drop_last());
        }
        input.substring_char(inner_from, inner_to).to_owned()
    } else {
        input.substring_char(from, to).to_owned()
    }
}

/// The nine texts that are looked for in a result card, each as it was
/// found or missing.
#[derive(Debug, Clone, PartialEq, Eq)]
pub struct RawFields {
    pub first_name: Option<String>,
    pub last_name: Option<String>,
    pub license_number: Option<String>,
    pub role: Option<String>,
    pub sector: Option<String>,
    pub expiry: Option<String>,
    pub status: Option<String>,
    pub status_reason: Option<String>,
    pub license_conditions: Option<String>,
}

/// What a [`RawFields`] holds, with each text as a sequence of characters.
pub ghost struct RawRecord {
    pub first_name: Option<Seq<char>>,
    pub last_name: Option<Seq<char>>,
    pub license_number: Option<Seq<char>>,
    pub role: Option<Seq<char>>,
    pub sector: Option<Seq<char>>,
    pub expiry: Option<Seq<char>>,
    pub status: Option<Seq<char>>,
    pub status_reason: Option<Seq<char>>,
    pub license_conditions: Option<Seq<char>>,
}

impl View for RawFields {
    type V = RawRecord;

    open spec fn view(&self) -> RawRecord {
        RawRecord {
            first_name: text_of(self.first_name),
            last_name: text_of(self.last_name),
            license_number: text_of(self.license_number),
            role: text_of(self.role),
            sector: text_of(self.sector),
            expiry: text_of(self.expiry),
            status: text_of(self.status),
            status_reason: text_of(self.status_reason),
            license_conditions: text_of(self.license_conditions),
        }
    }
}

impl RawRecord {
    /// None of the nine texts was found.
    pub open spec fn all_absent(self) -> bool {
        &&& self.first_name is None
        &&& self.last_name is None
        &&& self.license_number is None
        &&& self.role is None
        &&& self.sector is None
        &&& self.expiry is None
        &&& self.status is None
        &&& self.status_reason is None
        &&& self.license_conditions is None
    }
}

/// The nine texts of a result card, each found by its selector.
pub open spec fn raw_record(container: Seq<char>) -> RawRecord {
    RawRecord {
        first_name: first_match_text(FIRST_NAME_SELECTOR@, container),
        last_name: first_match_text(LAST_NAME_SELECTOR@, container),
        license_number: first_match_text(LICENSE_NUMBER_SELECTOR@, container),
        role: first_match_text(ROLE_SELECTOR@, container),
        sector: first_match_text(SECTOR_SELECTOR@, container),
        expiry: first_match_text(EXPIRY_SELECTOR@, container),
        status: first_match_text(STATUS_SELECTOR@, container),
        status_reason: first_match_text(STATUS_REASON_SELECTOR@, container),
        license_conditions: first_match_text(LICENSE_CONDITIONS_SELECTOR@, container),
    }
}

/// The text that a record holds for a field: the normalised text that was
/// found, or the empty text where none was found.
pub open spec fn field_text(raw: Option<Seq<char>>) -> Seq<char> {
    match raw {
        Some(t) => normalized(t),
        None => Seq::empty(),
    }
}

/// The date that stands at the head of a reading of the expiry text: the
/// date read, or the stand-in date where the reading failed.
pub open spec fn date_or_sentinel(read: Option<(int, int, int)>) -> Date {
    match read {
        Some((year, month, day)) => Date {
            year: year as i32,
            month: month as u32,
            day: day as u32,
        },
        None => Date::sentinel(),
    }
}

/// The expiry that a record holds: the date read from the normalised text
/// in the page's date format, or the stand-in date where the text is
/// missing or is no date.
pub open spec fn expiry_of(raw: Option<Seq<char>>) -> Date {
    match raw {
        Some(t) => date_or_sentinel(parsed_date(normalized(t), EXPIRY_FORMAT@)),
        None => Date::sentinel(),
    }
}

/// The record that is assembled from the nine texts of a card.
pub open spec fn record_of(raw: RawRecord) -> LicenseRecord {
    LicenseRecord {
        first_name: field_text(raw.first_name),
        last_name: field_text(raw.last_name),
        license_number: field_text(raw.license_number),
        role: role_of(key_of(field_text(raw.role))),
        sector: sector_of(key_of(field_text(raw.sector))),
        expiry: expiry_of(raw.expiry),
        status: field_text(raw.status),
        status_reason: field_text(raw.status_reason),
        license_conditions: field_text(raw.license_conditions),
    }
}

/// What assembling a card gives: a record, unless none of the nine texts
/// was found.
pub open spec fn assembled(raw: RawRecord) -> Result<LicenseRecord, SIAError> {
    if raw.all_absent() {
        Err(SIAError::RecordUnparseable)
    } else {
        Ok(record_of(raw))
    }
}

/// What assembling a card from its HTML gives: a record, unless the card
/// is too long to be read or none of the nine texts is found in it.
pub open spec fn assembled_card(container: Seq<char>) -> Result<LicenseRecord, SIAError> {
    if !readable(container) {
        Err(SIAError::RecordUnparseable)
    } else {
        assembled(raw_record(container))
    }
}

/// What classifying a page gives: its result cards, unless one of the two
/// notices stands in it, or it is too long to be read, or it holds no
/// card. The notice of an empty result is looked for first, and both
/// notices before anything else.
pub open spec fn classified(body: Seq<char>) -> Result<Seq<Seq<char>>, SIAError> {
    if contains_text(body, NO_RESULTS_NOTICE@) {
        Err(SIAError::NoLicensesFound)
    } else if contains_text(body, TOO_MANY_RESULTS_NOTICE@) {
        Err(SIAError::TooManyResults)
    } else if !readable(body) {
        Err(SIAError::NoLicenseContainersFound)
    } else if matched_inner_html(CONTAINER_SELECTOR@, body).len() == 0 {
        Err(SIAError::NoLicenseContainersFound)
    } else {
        Ok(matched_inner_html(CONTAINER_SELECTOR@, body))
    }
}

/// Some card of the list cannot be assembled: it is too long to be read,
/// or holds none of the nine texts.
pub open spec fn some_unparseable(containers: Seq<Seq<char>>) -> bool {
    exists|i: int| 0 <= i < containers.len() && (#[trigger] assembled_card(containers[i])) is Err
}

/// The records of a list of cards, in the order of the cards.
pub open spec fn records_of(containers: Seq<Seq<char>>) -> Seq<LicenseRecord> {
    Seq::new(containers.len(), |i: int| record_of(raw_record(containers[i])))
}

/// What reading a page gives: the failure of its classification, or
/// `RecordUnparseable` where one of its cards cannot be read, or else one
/// record for each card, in the order of the cards.
pub open spec fn parsed(body: Seq<char>) -> Result<Seq<LicenseRecord>, SIAError> {
    match classified(body) {
        Err(e) => Err(e),
        Ok(containers) => if some_unparseable(containers) {
            Err(SIAError::RecordUnparseable)
        } else {
            Ok(records_of(containers))
        },
    }
}

/// What a list of licences holds, each as a record.
pub open spec fn views_of(licenses: Seq<LicenseState>) -> Seq<LicenseRecord> {
    Seq::new(licenses.len(), |i: int| licenses[i]@)
}

/// Classifies a result page: finds the notice that ends the reading, or
/// the result cards of the page as HTML fragments, in page order.
pub fn classify(html_body: &str) -> (r: Result<Vec<String>, SIAError>)
    ensures
        match r {
            Ok(containers) => classified(html_body@) == Ok::<Seq<Seq<char>>, SIAError>(
                texts_of(containers@),
            ),
            Err(e) => classified(html_body@) == Err::<Seq<Seq<char>>, SIAError>(e),
        },
{
    if contains(html_body, NO_RESULTS_NOTICE) {
        return Err(SIAError::NoLicensesFound);
    }
    if contains(html_body, TOO_MANY_RESULTS_NOTICE) {
        return Err(SIAError::TooManyResults);
    }
    if html_body.len() > MAX_HTML_BYTES {
        return Err(SIAError::NoLicenseContainersFound);
    }
    proof {
        lemma_selectors_are_short();
    }
    let containers = select_inner_html(CONTAINER_SELECTOR, html_body);
    if containers.len() == 0 {
        return Err(SIAError::NoLicenseContainersFound);
    }
    Ok(containers)
}

/// Looks for the nine texts of a result card, each by its selector. The
/// card is one that is short enough to be read.
pub fn extract(container: &str) -> (fields: RawFields)
    requires
        readable(container@),
    ensures
        fields@ == raw_record(container@),
{
    proof {
        lemma_selectors_are_short();
    }
    RawFields {
        first_name: select_first(FIRST_NAME_SELECTOR, container),
        last_name: select_first(LAST_NAME_SELECTOR, container),
        license_number: select_first(LICENSE_NUMBER_SELECTOR, container),
        role: select_first(ROLE_SELECTOR, container),
        sector: select_first(SECTOR_SELECTOR, container),
        expiry: select_first(EXPIRY_SELECTOR, container),
        status: select_first(STATUS_SELECTOR, container),
        status_reason: select_first(STATUS_REASON_SELECTOR, container),
        license_conditions: select_first(LICENSE_CONDITIONS_SELECTOR, container),
    }
}

/// The text that a record holds for a field that was found or is missing.
fn field_or_empty(raw: Option<String>) -> (text: String)
    ensures
        text@ == field_text(text_of(raw)),
        is_trimmed(text@),
{
    match raw {
        Some(t) => string_post_process(t.as_str()),
        None => String::new(),
    }
}

/// The expiry that a record holds for an expiry text that was found or is
/// missing.
fn expiry_or_sentinel(raw: Option<String>) -> (date: Date)
    ensures
        date == expiry_of(text_of(raw)),
        date.well_formed(),
{
    match raw {
        Some(t) => {
            let text = string_post_process(t.as_str());
            match Date::parse_from_str(text.as_str(), EXPIRY_FORMAT) {
                Some(date) => date,
                None => Date::default(),
            }
        },
        None => Date::default(),
    }
}

/// Assembles a licence from the nine texts of a card. Fails only where
/// none of the nine was found; a text that is missing beside others is
/// taken as empty, and an expiry that cannot be read as the stand-in date.
pub fn assemble_fields(fields: RawFields) -> (r: Result<LicenseState, SIAError>)
    ensures
        match r {
            Ok(license) => assembled(fields@) == Ok::<LicenseRecord, SIAError>(license@),
            Err(e) => assembled(fields@) == Err::<LicenseRecord, SIAError>(e),
        },
        r is Err <==> fields@.all_absent(),
        r matches Ok(license) ==> license@.well_formed(),
{
    if fields.first_name.is_none() && fields.last_name.is_none()
        && fields.license_number.is_none() && fields.role.is_none() && fields.sector.is_none()
        && fields.expiry.is_none() && fields.status.is_none() && fields.status_reason.is_none()
        && fields.license_conditions.is_none() {
        return Err(SIAError::RecordUnparseable);
    }
    let role_text = field_or_empty(fields.role);
    let sector_text = field_or_empty(fields.sector);
    Ok(
        LicenseState {
            first_name: field_or_empty(fields.first_name),
            last_name: field_or_empty(fields.last_name),
            license_number: field_or_empty(fields.license_number),
            role: classify_role(role_text.as_str()),
            sector: classify_sector(sector_text.as_str()),
            expiry: expiry_or_sentinel(fields.expiry),
            status: field_or_empty(fields.status),
            status_reason: field_or_empty(fields.status_reason),
            license_conditions: field_or_empty(fields.license_conditions),
        },
    )
}

/// Assembles a licence from one result card, given as an HTML fragment.
/// Fails where the card is too long to be read, or none of the nine texts
/// is found in it.
pub fn assemble(container: &str) -> (r: Result<LicenseState, SIAError>)
    ensures
        match r {
            Ok(license) => assembled_card(container@) == Ok::<LicenseRecord, SIAError>(license@),
            Err(e) => assembled_card(container@) == Err::<LicenseRecord, SIAError>(e),
        },
        r matches Ok(license) ==> license@.well_formed(),
{
    if container.len() > MAX_HTML_BYTES {
        return Err(SIAError::RecordUnparseable);
    }
    assemble_fields(extract(container))
}

/// Reads the licences out of the HTML body of a result page: one licence
/// for each result card, in page order.
pub fn parse(html_body: &str) -> (r: Result<Vec<LicenseState>, SIAError>)
    ensures
        match r {
            Ok(licenses) => parsed(html_body@) == Ok::<Seq<LicenseRecord>, SIAError>(
                views_of(licenses@),
            ),
            Err(e) => parsed(html_body@) == Err::<Seq<LicenseRecord>, SIAError>(e),
        },
        r matches Ok(licenses) ==> licenses.len() > 0 && forall|i: int|
            0 <= i < licenses.len() ==> (#[trigger] licenses[i])@.well_formed(),
{
    let containers = match classify(html_body) {
        Ok(containers) => containers,
        Err(e) => {
            return Err(e);
        },
    };
    let ghost cards = texts_of(containers@);
    let mut licenses: Vec<LicenseState> = Vec::new();
    let mut i: usize = 0;
    while i < containers.len()
        invariant
            i <= containers.len(),
            cards == texts_of(containers@),
            classified(html_body@) == Ok::<Seq<Seq<char>>, SIAError>(cards),
            licenses.len() == i,
            forall|j: int| 0 <= j < i ==> (#[trigger] assembled_card(cards[j])) is Ok,
            forall|j: int|
                0 <= j < i ==> (#[trigger] licenses[j])@ == record_of(raw_record(cards[j]))
                    && licenses[j]@.well_formed(),
        decreases containers.len() - i,
    {
        assert(cards[i as int] == containers[i as int]@);
        match assemble(containers[i].as_str()) {
            Ok(license) => {
                licenses.push(license);
            },
            Err(e) => {
                assert(assembled_card(cards[i as int]) is Err);
                assert(some_unparseable(cards));
                return Err(e);
            },
        }
        i += 1;
    }
    assert(views_of(licenses@) =~= records_of(cards));
    Ok(licenses)
}

/// Normalising is idle on a text that is normalised already: one that
/// neither begins nor ends with whitespace and does not end with a
/// hyphen.
pub proof fn lemma_normalized_fixed_point(s: Seq<char>)
    requires
        is_trimmed(s),
        s.len() > 0 ==> s.last() != '-',
    ensures
        normalized(s) == s,
{
}

/// A text in its normal form neither begins nor ends with whitespace.
pub proof fn lemma_normalized_is_trimmed(s: Seq<char>)
    ensures
        is_trimmed(normalized(s)),
{
    lemma_trimmed_is_trimmed(s);
    lemma_trimmed_is_trimmed(trimmed(s).drop_last());
}

/// A card without any of the nine texts is not assembled.
pub proof fn lemma_empty_card_is_unparseable(raw: RawRecord)
    requires
        raw.all_absent(),
    ensures
        assembled(raw) == Err::<LicenseRecord, SIAError>(SIAError::RecordUnparseable),
{
}

/// A card with at least one of the nine texts is assembled, whichever
/// text it is. The record holds each text that was found in its normal
/// form, and for each that is missing the empty text, the role `Unknown`,
/// the sector `NoSector` or the stand-in date.
pub proof fn lemma_missing_fields_are_empty(raw: RawRecord)
    requires
        !raw.all_absent(),
    ensures
        assembled(raw) == Ok::<LicenseRecord, SIAError>(record_of(raw)),
        raw.first_name is None ==> record_of(raw).first_name.len() == 0,
        raw.last_name is None ==> record_of(raw).last_name.len() == 0,
        raw.license_number is None ==> record_of(raw).license_number.len() == 0,
        raw.role is None ==> record_of(raw).role == LicenseRole::Unknown,
        raw.sector is None ==> record_of(raw).sector == LicenseSector::NoSector,
        raw.expiry is None ==> record_of(raw).expiry == Date::sentinel(),
        raw.status is None ==> record_of(raw).status.len() == 0,
        raw.status_reason is None ==> record_of(raw).status_reason.len() == 0,
        raw.license_conditions is None ==> record_of(raw).license_conditions.len() == 0,
        raw.first_name matches Some(t) ==> record_of(raw).first_name == normalized(t),
        raw.last_name matches Some(t) ==> record_of(raw).last_name == normalized(t),
        raw.license_number matches Some(t) ==> record_of(raw).license_number == normalized(t),
        raw.status matches Some(t) ==> record_of(raw).status == normalized(t),
        raw.status_reason matches Some(t) ==> record_of(raw).status_reason == normalized(t),
        raw.license_conditions matches Some(t) ==> record_of(raw).license_conditions
            == normalized(t),
{
    lemma_blank_text_classes(Seq::<char>::empty());
}

/// An expiry text that cannot be read as a date does not keep the card
/// from being assembled: the record holds the stand-in date.
pub proof fn lemma_unreadable_expiry_is_lenient(raw: RawRecord, text: Seq<char>)
    requires
        raw.expiry == Some(text),
    ensures
        assembled(raw) == Ok::<LicenseRecord, SIAError>(record_of(raw)),
        parsed_date(normalized(text), EXPIRY_FORMAT@) is None ==> record_of(raw).expiry
            == Date::sentinel(),
{
}

/// Reading a page gives as many licences as the page has cards, and the
/// licence at each place is the one assembled from the card at that place.
pub proof fn lemma_parsed_keeps_order(body: Seq<char>, i: int)
    requires
        parsed(body) is Ok,
        0 <= i < parsed(body).unwrap().len(),
    ensures
        classified(body) is Ok,
        parsed(body).unwrap().len() == classified(body).unwrap().len(),
        parsed(body).unwrap().len() > 0,
        assembled_card(classified(body).unwrap()[i]) == Ok::<LicenseRecord, SIAError>(
            parsed(body).unwrap()[i],
        ),
{
    let containers = classified(body).unwrap();
    assert(assembled_card(containers[i]) is Ok);
}

/// A page that is too long to be read, and shows neither notice, counts
/// as a page without cards; a card that is too long to be read counts as
/// a card without fields.
pub proof fn lemma_overlong_input_fails_hard(body: Seq<char>, container: Seq<char>)
    ensures
        !readable(body) && !contains_text(body, NO_RESULTS_NOTICE@) && !contains_text(
            body,
            TOO_MANY_RESULTS_NOTICE@,
        ) ==> parsed(body) == Err::<Seq<LicenseRecord>, SIAError>(
            SIAError::NoLicenseContainersFound,
        ),
        !readable(container) ==> assembled_card(container) == Err::<LicenseRecord, SIAError>(
            SIAError::RecordUnparseable,
        ),
{
}

/// Each selector of the page's layout is short enough for the selector
/// parser: all are ASCII, of 67 characters at most.
pub proof fn lemma_selectors_are_short()
    ensures
        byte_len(CONTAINER_SELECTOR@) <= MAX_SELECTOR_BYTES,
        byte_len(FIRST_NAME_SELECTOR@) <= MAX_SELECTOR_BYTES,
        byte_len(LAST_NAME_SELECTOR@) <= MAX_SELECTOR_BYTES,
        byte_len(LICENSE_NUMBER_SELECTOR@) <= MAX_SELECTOR_BYTES,
        byte_len(ROLE_SELECTOR@) <= MAX_SELECTOR_BYTES,
        byte_len(SECTOR_SELECTOR@) <= MAX_SELECTOR_BYTES,
        byte_len(EXPIRY_SELECTOR@) <= MAX_SELECTOR_BYTES,
        byte_len(STATUS_SELECTOR@) <= MAX_SELECTOR_BYTES,
        byte_len(STATUS_REASON_SELECTOR@) <= MAX_SELECTOR_BYTES,
        byte_len(LICENSE_CONDITIONS_SELECTOR@) <= MAX_SELECTOR_BYTES,
{
    reveal_strlit("div[class*='well']");
    reveal_strlit("div:nth-of-type(1) > div:nth-of-type(1) > div > div");
    reveal_strlit("div:nth-of-type(1) > div:nth-of-type(2) > div > div");
    reveal_strlit("div:nth-of-type(2) > div:nth-of-type(1) > div > div");
    reveal_strlit("div:nth-of-type(2) > div:nth-of-type(2) > div > div");
    reveal_strlit("div:nth-of-type(2) > div:nth-of-type(3) > div > div");
    reveal_strlit("div:nth-of-type(3) > div:nth-of-type(1) > div > div");
    reveal_strlit("div:nth-of-type(3) > div:nth-of-type(2) > div > span:nth-of-type(1)");
    reveal_strlit("div:nth-of-type(4) > div > div:nth-of-type(2) > span:nth-of-type(1)");
    reveal_strlit("div:nth-of-type(5) > div > div:nth-of-type(2)");
    vstd::utf8::is_ascii_chars_encode_utf8(CONTAINER_SELECTOR@);
    vstd::utf8::is_ascii_chars_encode_utf8(FIRST_NAME_SELECTOR@);
    vstd::utf8::is_ascii_chars_encode_utf8(LAST_NAME_SELECTOR@);
    vstd::utf8::is_ascii_chars_encode_utf8(LICENSE_NUMBER_SELECTOR@);
    vstd::utf8::is_ascii_chars_encode_utf8(ROLE_SELECTOR@);
    vstd::utf8::is_ascii_chars_encode_utf8(SECTOR_SELECTOR@);
    vstd::utf8::is_ascii_chars_encode_utf8(EXPIRY_SELECTOR@);
    vstd::utf8::is_ascii_chars_encode_utf8(STATUS_SELECTOR@);
    vstd::utf8::is_ascii_chars_encode_utf8(STATUS_REASON_SELECTOR@);
    vstd::utf8::is_ascii_chars_encode_utf8(LICENSE_CONDITIONS_SELECTOR@);
}

} // verus!
