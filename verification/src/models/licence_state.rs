//! Licence records, and the closed vocabularies of roles and sectors.

use crate::models::date::{days_between, signed_days_between, whole_days, Date};
use crate::text::{
    alphanumerics, char_is_alphanumeric, is_trimmed, lowercase, push_char, same_text,
    to_lowercase,
};
use vstd::prelude::*;

verus! {

/// The state of one licence, as the register shows it.
#[derive(Debug, Clone, PartialEq, Eq)]
pub struct LicenseState {
    /// The first name of the licence holder.
    pub first_name: String,
    /// The last name of the licence holder.
    pub last_name: String,
    /// The licence number.
    pub license_number: String,
    /// The role of this licence.
    pub role: LicenseRole,
    /// The sector of this licence.
    pub sector: LicenseSector,
    /// The day on which the licence expires.
    pub expiry: Date,
    /// The status of the licence.
    pub status: String,
    /// The reason for the status.
    pub status_reason: String,
    /// The conditions of the licence.
    pub license_conditions: String,
}

/// What a [`LicenseState`] holds, with each text as a sequence of
/// characters.
pub ghost struct LicenseRecord {
    pub first_name: Seq<char>,
    pub last_name: Seq<char>,
    pub license_number: Seq<char>,
    pub role: LicenseRole,
    pub sector: LicenseSector,
    pub expiry: Date,
    pub status: Seq<char>,
    pub status_reason: Seq<char>,
    pub license_conditions: Seq<char>,
}

impl LicenseRecord {
    /// No text of the record begins or ends with whitespace, and the
    /// expiry has a month of the twelve and a day from 1 to 31.
    pub open spec fn well_formed(self) -> bool {
        &&& is_trimmed(self.first_name)
        &&& is_trimmed(self.last_name)
        &&& is_trimmed(self.license_number)
        &&& is_trimmed(self.status)
        &&& is_trimmed(self.status_reason)
        &&& is_trimmed(self.license_conditions)
        &&& self.expiry.well_formed()
    }
}

impl LicenseState {
    /// The number of days that remain on `today` until the licence
    /// expires: negative once it has expired, and `None` where `today` or
    /// the expiry is no date of the calendar.
    pub fn remaining_days_from(&self, today: &Date) -> (days: Option<i64>)
        ensures
            whole_days(days) == days_between(today.fields(), self.expiry.fields()),
    {
        signed_days_between(today, &self.expiry)
    }
}

impl View for LicenseState {
    type V = LicenseRecord;

    open spec fn view(&self) -> LicenseRecord {
        LicenseRecord {
            first_name: self.first_name@,
            last_name: self.last_name@,
            license_number: self.license_number@,
            role: self.role,
            sector: self.sector,
            expiry: self.expiry,
            status: self.status@,
            status_reason: self.status_reason@,
            license_conditions: self.license_conditions@,
        }
    }
}

/// The role of a licence.
#[derive(Debug, Clone, Copy, PartialEq, Eq, Structural)]
pub enum LicenseRole {
    /// For those who engage in licensable activities.
    Frontline,
    /// For those who manage, supervise or employ people who engage in
    /// licensable activities.
    NonFrontline,
    /// A role outside the vocabulary.
    Unknown,
}

/// The sector of a licence.
#[derive(Debug, Clone, Copy, PartialEq, Eq, Structural)]
pub enum LicenseSector {
    /// Physical transportation of cash and valuables.
    CashInTransit,
    /// Protection of individuals.
    CloseProtection,
    /// Monitoring and controlling access to premises.
    DoorSupervision,
    /// Monitoring public spaces.
    PublicSpaceSurveillance,
    /// General security duties.
    SecurityGuard,
    /// Immobilisation of vehicles.
    VehicleImmobilisation,
    /// Holding keys to premises.
    KeyHolding,
    /// No sector: the register leaves the field empty.
    NoSector,
    /// A sector outside the vocabulary.
    Unknown,
}

/// The key under which a text is looked up in a vocabulary: its
/// alphanumeric characters, in lower case.
pub open spec fn key_of(text: Seq<char>) -> Seq<char> {
    let kept = alphanumerics(text);
    if kept.len() == 0 {
        kept
    } else {
        lowercase(kept)
    }
}

/// The role that stands under a key.
pub open spec fn role_of(key: Seq<char>) -> LicenseRole {
    if key == "frontline"@ {
        LicenseRole::Frontline
    } else if key == "nonfrontline"@ {
        LicenseRole::NonFrontline
    } else {
        LicenseRole::Unknown
    }
}

/// The sector that stands under a key.
pub open spec fn sector_of(key: Seq<char>) -> LicenseSector {
    if key == "cashandvaluablesintransit"@ || key == "cashintransit"@ {
        LicenseSector::CashInTransit
    } else if key == "closeprotection"@ {
        LicenseSector::CloseProtection
    } else if key == "doorsupervision"@ {
        LicenseSector::DoorSupervision
    } else if key == "publicspacesurveillancecctv"@ {
        LicenseSector::PublicSpaceSurveillance
    } else if key == "securityguard"@ {
        LicenseSector::SecurityGuard
    } else if key == "vehicleimmobilisation"@ {
        LicenseSector::VehicleImmobilisation
    } else if key == "keyholding"@ {
        LicenseSector::KeyHolding
    } else if key.len() == 0 {
        LicenseSector::NoSector
    } else {
        LicenseSector::Unknown
    }
}

/// Computes the vocabulary key of a text: drops every character that is
/// not alphanumeric and puts the rest in lower case.
pub fn vocabulary_key(text: &str) -> (key: String)
    ensures
        key@ == key_of(text@),
{
    let mut kept = String::new();
    let ghost mut seen: Seq<char> = Seq::empty();
    for c in it: text.chars()
        invariant
            it.seq() == text@,
            seen == it.seq().take(it.index() as int),
            kept@ == alphanumerics(seen),
    {
        proof {
            let next = seen.push(c);
            assert(next.drop_last() =~= seen);
            assert(it.seq().take(it.index() + 1) =~= next);
            seen = next;
        }
        if char_is_alphanumeric(c) {
            push_char(&mut kept, c);
        }
    }
    assert(seen =~= text@);
    if kept.as_str().is_empty() {
        kept
    } else {
        to_lowercase(kept.as_str())
    }
}

impl LicenseRole {
    /// The name of the role as the register writes it.
    pub open spec fn label(self) -> Seq<char> {
        match self {
            LicenseRole::Frontline => "Front Line"@,
            LicenseRole::NonFrontline => "Non Front Line"@,
            LicenseRole::Unknown => "Unknown Role"@,
        }
    }

    /// The name of the role as the register writes it, which is also the
    /// value that the search form takes for it.
    pub fn to_string(&self) -> (s: String)
        ensures
            s@ == self.label(),
    {
        match self {
            LicenseRole::Frontline => "Front Line".to_owned(),
            LicenseRole::NonFrontline => "Non Front Line".to_owned(),
            LicenseRole::Unknown => "Unknown Role".to_owned(),
        }
    }

    /// Looks a key up in the vocabulary of roles. Every key has a role:
    /// one outside the vocabulary has `Unknown`.
    pub fn from_key(key: &str) -> (role: LicenseRole)
        ensures
            role == role_of(key@),
    {
        if same_text(key, "frontline") {
            LicenseRole::Frontline
        } else if same_text(key, "nonfrontline") {
            LicenseRole::NonFrontline
        } else {
            LicenseRole::Unknown
        }
    }
}

impl LicenseSector {
    /// The name of the sector as the register writes it.
    pub open spec fn label(self) -> Seq<char> {
        match self {
            LicenseSector::CashInTransit => "Cash and Valuables in Transit"@,
            LicenseSector::CloseProtection => "Close Protection"@,
            LicenseSector::DoorSupervision => "Door Supervision"@,
            LicenseSector::PublicSpaceSurveillance => "Public Space Surveillance (CCTV)"@,
            LicenseSector::SecurityGuard => "Security Guard"@,
            LicenseSector::VehicleImmobilisation => "Vehicle Immobilisation"@,
            LicenseSector::KeyHolding => "Key Holding"@,
            LicenseSector::NoSector => ""@,
            LicenseSector::Unknown => "Unknown Sector"@,
        }
    }

    /// The name of the sector as the register writes it, which is also the
    /// value that the search form takes for it.
    pub fn to_string(&self) -> (s: String)
        ensures
            s@ == self.label(),
    {
        match self {
            LicenseSector::CashInTransit => "Cash and Valuables in Transit".to_owned(),
            LicenseSector::CloseProtection => "Close Protection".to_owned(),
            LicenseSector::DoorSupervision => "Door Supervision".to_owned(),
            LicenseSector::PublicSpaceSurveillance => "Public Space Surveillance (CCTV)".to_owned(),
            LicenseSector::SecurityGuard => "Security Guard".to_owned(),
            LicenseSector::VehicleImmobilisation => "Vehicle Immobilisation".to_owned(),
            LicenseSector::KeyHolding => "Key Holding".to_owned(),
            LicenseSector::NoSector => "".to_owned(),
            LicenseSector::Unknown => "Unknown Sector".to_owned(),
        }
    }

    /// Looks a key up in the vocabulary of sectors. Every key has a
    /// sector: the empty key has `NoSector`, any other key outside the
    /// vocabulary has `Unknown`.
    pub fn from_key(key: &str) -> (sector: LicenseSector)
        ensures
            sector == sector_of(key@),
    {
        if same_text(key, "cashandvaluablesintransit") {
            LicenseSector::CashInTransit
        } else if same_text(key, "cashintransit") {
            LicenseSector::CashInTransit
        } else if same_text(key, "closeprotection") {
            LicenseSector::CloseProtection
        } else if same_text(key, "doorsupervision") {
            LicenseSector::DoorSupervision
        } else if same_text(key, "publicspacesurveillancecctv") {
            LicenseSector::PublicSpaceSurveillance
        } else if same_text(key, "securityguard") {
            LicenseSector::SecurityGuard
        } else if same_text(key, "vehicleimmobilisation") {
            LicenseSector::VehicleImmobilisation
        } else if same_text(key, "keyholding") {
            LicenseSector::KeyHolding
        } else if key.is_empty() {
            LicenseSector::NoSector
        } else {
            LicenseSector::Unknown
        }
    }
}

/// Classifies the text of a role. Spacing, punctuation and case do not
/// matter; every text has exactly one role, and one that the vocabulary
/// does not know has `Unknown`.
pub fn classify_role(text: &str) -> (role: LicenseRole)
    ensures
        role == role_of(key_of(text@)),
{
    let key = vocabulary_key(text);
    LicenseRole::from_key(key.as_str())
}

/// Classifies the text of a sector. Spacing, punctuation and case do not
/// matter; every text has exactly one sector. A text without letters and
/// digits has `NoSector`, any other that the vocabulary does not know has
/// `Unknown`.
pub fn classify_sector(text: &str) -> (sector: LicenseSector)
    ensures
        sector == sector_of(key_of(text@)),
{
    let key = vocabulary_key(text);
    LicenseSector::from_key(key.as_str())
}

impl From<&String> for LicenseRole {
    fn from(s: &String) -> (role: Self) {
        classify_role(s.as_str())
    }
}

impl vstd::std_specs::convert::FromSpecImpl<&String> for LicenseRole {
    open spec fn obeys_from_spec() -> bool {
        true
    }

    open spec fn from_spec(s: &String) -> Self {
        role_of(key_of(s@))
    }
}

impl From<&String> for LicenseSector {
    fn from(s: &String) -> (sector: Self) {
        classify_sector(s.as_str())
    }
}

impl vstd::std_specs::convert::FromSpecImpl<&String> for LicenseSector {
    open spec fn obeys_from_spec() -> bool {
        true
    }

    open spec fn from_spec(s: &String) -> Self {
        sector_of(key_of(s@))
    }
}

/// A text without alphanumeric characters has no role and no sector: its
/// role is `Unknown`, its sector `NoSector`. The empty text is one such.
pub proof fn lemma_blank_text_classes(text: Seq<char>)
    requires
        alphanumerics(text).len() == 0,
    ensures
        role_of(key_of(text)) == LicenseRole::Unknown,
        sector_of(key_of(text)) == LicenseSector::NoSector,
        alphanumerics(Seq::<char>::empty()).len() == 0,
{
    reveal_strlit("frontline");
    reveal_strlit("nonfrontline");
    reveal_strlit("cashandvaluablesintransit");
    reveal_strlit("cashintransit");
    reveal_strlit("closeprotection");
    reveal_strlit("doorsupervision");
    reveal_strlit("publicspacesurveillancecctv");
    reveal_strlit("securityguard");
    reveal_strlit("vehicleimmobilisation");
    reveal_strlit("keyholding");
}

/// A key has the role `Unknown` exactly when it is neither of the two keys
/// of the roles, and the sector `NoSector` exactly when it is empty.
pub proof fn lemma_unknown_only_outside_vocabulary(key: Seq<char>)
    ensures
        role_of(key) == LicenseRole::Unknown <==> key != "frontline"@ && key != "nonfrontline"@,
        sector_of(key) == LicenseSector::NoSector <==> key.len() == 0,
{
    reveal_strlit("cashandvaluablesintransit");
    reveal_strlit("cashintransit");
    reveal_strlit("closeprotection");
    reveal_strlit("doorsupervision");
    reveal_strlit("publicspacesurveillancecctv");
    reveal_strlit("securityguard");
    reveal_strlit("vehicleimmobilisation");
    reveal_strlit("keyholding");
}

} // verus!
