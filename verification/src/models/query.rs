//! The search query: a builder for the parameters of a search, and the
//! choice of the form that carries them.

use crate::models::licence_state::{LicenseRole, LicenseSector};
use crate::models::payloads::{Form, NameForm, SearchByLicense, SearchByName, SearchPayload};
use vstd::prelude::*;

verus! {

/// The parameters of a search. Each is set or left out.
///
/// A query is made empty, filled by its `with_` methods and then turned
/// into one of the two forms: the search by licence number where a number
/// is set, else the search by name.
#[derive(Debug, Clone)]
pub struct Query {
    pub first_name: Option<String>,
    pub middle_name: Option<String>,
    pub last_name: Option<String>,
    pub date_of_birth: Option<String>,
    pub role: Option<String>,
    pub license_sector: Option<String>,
    pub license_no: Option<String>,
}

/// What a [`Query`] holds, with each text as a sequence of characters.
pub ghost struct QueryView {
    pub first_name: Option<Seq<char>>,
    pub middle_name: Option<Seq<char>>,
    pub last_name: Option<Seq<char>>,
    pub date_of_birth: Option<Seq<char>>,
    pub role: Option<Seq<char>>,
    pub license_sector: Option<Seq<char>>,
    pub license_no: Option<Seq<char>>,
}

/// The characters of a parameter that may be left out.
pub open spec fn parameter(value: Option<String>) -> Option<Seq<char>> {
    match value {
        Some(v) => Some(v@),
        None => None,
    }
}

/// The value that a form carries for a parameter: the parameter, or the
/// empty text where it was left out.
pub open spec fn or_empty(value: Option<Seq<char>>) -> Seq<char> {
    match value {
        Some(v) => v,
        None => Seq::empty(),
    }
}

impl View for Query {
    type V = QueryView;

    open spec fn view(&self) -> QueryView {
        QueryView {
            first_name: parameter(self.first_name),
            middle_name: parameter(self.middle_name),
            last_name: parameter(self.last_name),
            date_of_birth: parameter(self.date_of_birth),
            role: parameter(self.role),
            license_sector: parameter(self.license_sector),
            license_no: parameter(self.license_no),
        }
    }
}

impl QueryView {
    /// The query with nothing set.
    pub open spec fn empty() -> QueryView {
        QueryView {
            first_name: None,
            middle_name: None,
            last_name: None,
            date_of_birth: None,
            role: None,
            license_sector: None,
            license_no: None,
        }
    }

    /// At least one parameter is set.
    pub open spec fn has_any(self) -> bool {
        ||| self.first_name is Some
        ||| self.middle_name is Some
        ||| self.last_name is Some
        ||| self.date_of_birth is Some
        ||| self.role is Some
        ||| self.license_sector is Some
        ||| self.license_no is Some
    }

    /// The form of the search by name that carries this query.
    pub open spec fn by_name(self) -> NameForm {
        NameForm {
            last_name: or_empty(self.last_name),
            first_name: or_empty(self.first_name),
            middle_name: or_empty(self.middle_name),
            dob: or_empty(self.date_of_birth),
            role: or_empty(self.role),
            license_sector: or_empty(self.license_sector),
        }
    }

    /// The licence number that the search by licence number carries for
    /// this query.
    pub open spec fn by_license(self) -> Seq<char> {
        or_empty(self.license_no)
    }

    /// The form that is sent for this query: the search by licence number
    /// where a number is set, else the search by name where anything is
    /// set, else none.
    pub open spec fn form(self) -> Option<Form> {
        if self.license_no is Some {
            Some(Form::ByLicense(self.by_license()))
        } else if self.has_any() {
            Some(Form::ByName(self.by_name()))
        } else {
            None
        }
    }
}

/// The value that a form carries for a parameter.
fn value_or_empty(value: &Option<String>) -> (text: String)
    ensures
        text@ == or_empty(parameter(*value)),
{
    match value {
        Some(v) => v.clone(),
        None => String::new(),
    }
}

impl Default for Query {
    /// The query with nothing set.
    fn default() -> (query: Self)
        ensures
            query@ == QueryView::empty(),
    {
        Query {
            first_name: None,
            middle_name: None,
            last_name: None,
            date_of_birth: None,
            role: None,
            license_sector: None,
            license_no: None,
        }
    }
}

impl Query {
    /// The query with nothing set.
    pub fn new() -> (query: Self)
        ensures
            query@ == QueryView::empty(),
    {
        Self::default()
    }

    /// Sets the first name of the licence holder.
    pub fn with_first_name(self, first_name: String) -> (query: Self)
        ensures
            query@ == (QueryView { first_name: Some(first_name@), ..self@ }),
    {
        let mut query = self;
        query.first_name = Some(first_name);
        query
    }

    /// Sets the middle name of the licence holder.
    pub fn with_middle_name(self, middle_name: String) -> (query: Self)
        ensures
            query@ == (QueryView { middle_name: Some(middle_name@), ..self@ }),
    {
        let mut query = self;
        query.middle_name = Some(middle_name);
        query
    }

    /// Sets the last name of the licence holder.
    pub fn with_last_name(self, last_name: String) -> (query: Self)
        ensures
            query@ == (QueryView { last_name: Some(last_name@), ..self@ }),
    {
        let mut query = self;
        query.last_name = Some(last_name);
        query
    }

    /// Sets the date of birth of the licence holder.
    pub fn with_date_of_birth(self, date_of_birth: String) -> (query: Self)
        ensures
            query@ == (QueryView { date_of_birth: Some(date_of_birth@), ..self@ }),
    {
        let mut query = self;
        query.date_of_birth = Some(date_of_birth);
        query
    }

    /// Sets the role of the licence, under the name that the register
    /// gives the role.
    pub fn with_role(self, role: LicenseRole) -> (query: Self)
        ensures
            query@ == (QueryView { role: Some(role.label()), ..self@ }),
    {
        let mut query = self;
        query.role = Some(role.to_string());
        query
    }

    /// Sets the sector of the licence, under the name that the register
    /// gives the sector.
    pub fn with_license_sector(self, license_sector: LicenseSector) -> (query: Self)
        ensures
            query@ == (QueryView { license_sector: Some(license_sector.label()), ..self@ }),
    {
        let mut query = self;
        query.license_sector = Some(license_sector.to_string());
        query
    }

    /// Sets the licence number.
    pub fn with_license_no(self, license_no: String) -> (query: Self)
        ensures
            query@ == (QueryView { license_no: Some(license_no@), ..self@ }),
    {
        let mut query = self;
        query.license_no = Some(license_no);
        query
    }

    /// Sets the licence number; another name for `with_license_no`.
    pub fn with_license_number(self, license_no: String) -> (query: Self)
        ensures
            query@ == (QueryView { license_no: Some(license_no@), ..self@ }),
    {
        self.with_license_no(license_no)
    }

    /// Whether any parameter is set.
    pub fn has_any(&self) -> (r: bool)
        ensures
            r == self@.has_any(),
    {
        self.first_name.is_some() || self.middle_name.is_some() || self.last_name.is_some()
            || self.date_of_birth.is_some() || self.role.is_some()
            || self.license_sector.is_some() || self.license_no.is_some()
    }

    /// Ends the building of the query, which it returns as it is.
    pub fn build(self) -> (query: Self)
        ensures
            query == self,
    {
        self
    }

    /// The form of the search by name for this query. A parameter that
    /// was left out is sent empty; the licence number is not sent.
    pub fn to_search_by_name_payload(&self) -> (payload: SearchByName)
        ensures
            payload@ == self@.by_name(),
    {
        SearchByName {
            last_name: value_or_empty(&self.last_name),
            first_name: value_or_empty(&self.first_name),
            middle_name: value_or_empty(&self.middle_name),
            dob: value_or_empty(&self.date_of_birth),
            role: value_or_empty(&self.role),
            license_sector: value_or_empty(&self.license_sector),
        }
    }

    /// The form of the search by licence number for this query: the
    /// licence number, empty where none is set, and nothing else.
    pub fn to_search_by_license_payload(&self) -> (payload: SearchByLicense)
        ensures
            payload@ == self@.by_license(),
    {
        SearchByLicense { license_no: value_or_empty(&self.license_no) }
    }

    /// The form that is sent for this query: the search by licence number
    /// where a number is set, else the search by name where anything is
    /// set. A query with nothing set sends nothing, and its search finds
    /// nothing.
    pub fn to_payload(&self) -> (payload: Option<SearchPayload>)
        ensures
            match payload {
                Some(p) => self@.form() == Some(p@),
                None => self@.form() is None,
            },
    {
        if self.license_no.is_some() {
            Some(SearchPayload::ByLicense(self.to_search_by_license_payload()))
        } else if self.has_any() {
            Some(SearchPayload::ByName(self.to_search_by_name_payload()))
        } else {
            None
        }
    }
}

/// A query in which only the licence number was set is sent as the search
/// by licence number, to that search's address, with the number as its
/// one field.
pub proof fn lemma_license_only_query(license_no: Seq<char>)
    ensures
        ({
            let query = QueryView { license_no: Some(license_no), ..QueryView::empty() };
            &&& query.form() == Some(Form::ByLicense(license_no))
            &&& query.form().unwrap().fields() == seq![("LicenseNo"@, license_no)]
            &&& query.form().unwrap().fields().len() == 1
            &&& query.by_name() == QueryView::empty().by_name()
        }),
{
}

/// Whatever else a query holds, a licence number in it decides for the
/// search by licence number, and the form carries that number alone.
pub proof fn lemma_license_number_decides(query: QueryView)
    requires
        query.license_no is Some,
    ensures
        query.form() == Some(Form::ByLicense(query.license_no.unwrap())),
        query.form().unwrap().fields() == seq![("LicenseNo"@, query.license_no.unwrap())],
{
}

/// The two forms exclude each other: a query is sent by name exactly when
/// no licence number is set and something else is.
pub proof fn lemma_forms_exclusive(query: QueryView)
    ensures
        query.form() is None <==> !query.has_any(),
        query.form() matches Some(Form::ByName(_)) <==> query.license_no is None
            && query.has_any(),
        query.form() matches Some(Form::ByLicense(_)) <==> query.license_no is Some,
{
}

} // verus!
