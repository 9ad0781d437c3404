//! The two forms of the register's search page, as the server takes them.
//!
//! The names of the form fields are the server's, and differ from the
//! names of the struct fields.

use vstd::prelude::*;

verus! {

/// The address of the search by licence number.
pub const SEARCH_LICENSE_NUM_URL: &'static str =
    "https://services.sia.homeoffice.gov.uk/PublicRegister/SearchPublicRegisterByLicence";

/// The address of the search by name.
pub const SEARCH_NAME_URL: &'static str =
    "https://services.sia.homeoffice.gov.uk/PublicRegister/SearchPublicRegisterBySurname";

/// The form of the search by name.
#[derive(Debug, Clone, PartialEq, Eq)]
pub struct SearchByName {
    /// Sent as `Surname`.
    pub last_name: String,
    /// Sent as `FirstName`.
    pub first_name: String,
    /// Sent as `MiddleName`.
    pub middle_name: String,
    /// Sent as `DateOfBirth`.
    pub dob: String,
    /// Sent as `Role`.
    pub role: String,
    /// Sent as `LicenseSector`.
    pub license_sector: String,
}

/// The form of the search by licence number.
#[derive(Debug, Clone, PartialEq, Eq)]
pub struct SearchByLicense {
    /// Sent as `LicenseNo`.
    pub license_no: String,
}

/// One of the two forms.
#[derive(Debug, Clone, PartialEq, Eq)]
pub enum SearchPayload {
    ByName(SearchByName),
    ByLicense(SearchByLicense),
}

/// What a [`SearchByName`] holds, with each text as a sequence of
/// characters.
pub ghost struct NameForm {
    pub last_name: Seq<char>,
    pub first_name: Seq<char>,
    pub middle_name: Seq<char>,
    pub dob: Seq<char>,
    pub role: Seq<char>,
    pub license_sector: Seq<char>,
}

/// What a [`SearchPayload`] holds, with each text as a sequence of
/// characters.
pub ghost enum Form {
    ByName(NameForm),
    ByLicense(Seq<char>),
}

/// The fields of a form in the order in which they are sent, each as a
/// name and a value.
pub open spec fn fields_of(params: Seq<(String, String)>) -> Seq<(Seq<char>, Seq<char>)> {
    Seq::new(params.len(), |i: int| (params[i].0@, params[i].1@))
}

impl NameForm {
    /// The six fields of the search by name, under the server's names.
    pub open spec fn fields(self) -> Seq<(Seq<char>, Seq<char>)> {
        seq![
            ("Surname"@, self.last_name),
            ("FirstName"@, self.first_name),
            ("MiddleName"@, self.middle_name),
            ("DateOfBirth"@, self.dob),
            ("Role"@, self.role),
            ("LicenseSector"@, self.license_sector),
        ]
    }
}

impl Form {
    /// The fields of the form, under the server's names.
    pub open spec fn fields(self) -> Seq<(Seq<char>, Seq<char>)> {
        match self {
            Form::ByName(form) => form.fields(),
            Form::ByLicense(license_no) => seq![("LicenseNo"@, license_no)],
        }
    }

    /// The address to which the form is sent.
    pub open spec fn url(self) -> Seq<char> {
        match self {
            Form::ByName(_) => SEARCH_NAME_URL@,
            Form::ByLicense(_) => SEARCH_LICENSE_NUM_URL@,
        }
    }
}

impl View for SearchByName {
    type V = NameForm;

    open spec fn view(&self) -> NameForm {
        NameForm {
            last_name: self.last_name@,
            first_name: self.first_name@,
            middle_name: self.middle_name@,
            dob: self.dob@,
            role: self.role@,
            license_sector: self.license_sector@,
        }
    }
}

impl View for SearchByLicense {
    type V = Seq<char>;

    open spec fn view(&self) -> Seq<char> {
        self.license_no@
    }
}

impl View for SearchPayload {
    type V = Form;

    open spec fn view(&self) -> Form {
        match self {
            SearchPayload::ByName(payload) => Form::ByName(payload@),
            SearchPayload::ByLicense(payload) => Form::ByLicense(payload@),
        }
    }
}

impl Default for SearchByName {
    /// The form with every field empty.
    fn default() -> (r: Self)
        ensures
            r@ == (NameForm {
                last_name: Seq::empty(),
                first_name: Seq::empty(),
                middle_name: Seq::empty(),
                dob: Seq::empty(),
                role: Seq::empty(),
                license_sector: Seq::empty(),
            }),
    {
        Self {
            last_name: String::new(),
            first_name: String::new(),
            middle_name: String::new(),
            dob: String::new(),
            role: String::new(),
            license_sector: String::new(),
        }
    }
}

impl SearchByName {
    /// The fields of the form as they are sent: six pairs of the server's
    /// name for a field and its value.
    pub fn to_params(&self) -> (params: Vec<(String, String)>)
        ensures
            fields_of(params@) == self@.fields(),
    {
        let mut params: Vec<(String, String)> = Vec::new();
        params.push(("Surname".to_owned(), self.last_name.clone()));
        params.push(("FirstName".to_owned(), self.first_name.clone()));
        params.push(("MiddleName".to_owned(), self.middle_name.clone()));
        params.push(("DateOfBirth".to_owned(), self.dob.clone()));
        params.push(("Role".to_owned(), self.role.clone()));
        params.push(("LicenseSector".to_owned(), self.license_sector.clone()));
        assert(fields_of(params@) =~= self@.fields());
        params
    }
}

impl SearchByLicense {
    /// The fields of the form as they are sent: the licence number under
    /// the server's name for it, and nothing else.
    pub fn to_params(&self) -> (params: Vec<(String, String)>)
        ensures
            fields_of(params@) == seq![("LicenseNo"@, self@)],
            params.len() == 1,
    {
        let mut params: Vec<(String, String)> = Vec::new();
        params.push(("LicenseNo".to_owned(), self.license_no.clone()));
        assert(fields_of(params@) =~= seq![("LicenseNo"@, self@)]);
        params
    }
}

impl SearchPayload {
    /// The address to which this form is sent.
    pub fn url(&self) -> (url: &'static str)
        ensures
            url@ == self@.url(),
    {
        match self {
            SearchPayload::ByName(_) => SEARCH_NAME_URL,
            SearchPayload::ByLicense(_) => SEARCH_LICENSE_NUM_URL,
        }
    }

    /// The fields of this form as they are sent.
    pub fn to_params(&self) -> (params: Vec<(String, String)>)
        ensures
            fields_of(params@) == self@.fields(),
    {
        match self {
            SearchPayload::ByName(payload) => payload.to_params(),
            SearchPayload::ByLicense(payload) => payload.to_params(),
        }
    }
}

} // verus!
