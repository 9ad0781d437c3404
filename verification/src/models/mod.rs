//! The values that a search takes and gives: the query, the form payloads
//! and the licence records.

pub mod date;
pub mod licence_state;
pub mod payloads;
pub mod query;

pub use date::Date;
pub use licence_state::{
    classify_role, classify_sector, LicenseRecord, LicenseRole, LicenseSector, LicenseState,
};
pub use payloads::{SearchByLicense, SearchByName, SearchPayload};
pub use query::Query;
