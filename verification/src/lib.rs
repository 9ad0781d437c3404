//! Queries the public register of security licences: builds the search
//! form, decides how a failed request is retried, and reads licence
//! records out of the result page.
//!
//! The library sends nothing itself. [`search_with`] runs a whole search
//! over a function that posts a form and a function that waits;
//! [`requests::Backoff`] offers the same decisions one at a time, for
//! callers that cannot hand such functions over.

pub mod errors;
pub mod models;
pub mod requests;
pub mod text;

pub use crate::errors::SIAError;
pub use crate::models::payloads::{
    SearchByLicense, SearchByName, SearchPayload, SEARCH_LICENSE_NUM_URL, SEARCH_NAME_URL,
};
pub use crate::models::{Date, LicenseRole, LicenseSector, LicenseState, Query};
pub use crate::requests::{Action, Attempt, Backoff};

use crate::models::payloads::fields_of;
use crate::requests::{dispatch, ends_dispatch};
use vstd::prelude::*;

verus! {

/// Searches the register for `query`.
///
/// `post_form` posts a form, given as the names and values of its fields,
/// to an address, and tells what came of it; it is only ever given the
/// address and the fields of the form that the query chooses. `wait`
/// waits for the number of seconds it is given.
///
/// A query with nothing set is not sent, and finds nothing. Any other
/// query is sent as the form that the query chooses, to that form's
/// address, at most four times; the result is what [`Backoff`] decided on
/// the last of these attempts.
pub fn search_with<P, W>(query: &Query, post_form: P, wait: W) -> (result: Result<
    Vec<LicenseState>,
    SIAError,
>) where P: Fn(&str, &Vec<(String, String)>) -> Attempt, W: Fn(u64)
    requires
        forall|url: &str, fields: &Vec<(String, String)>|
            query@.form() matches Some(form) && url@ == form.url() && fields_of(fields@)
                == form.fields() ==> call_requires(post_form, (url, fields)),
        forall|delay: u64| 1 <= delay <= 4 ==> call_requires(wait, (delay,)),
    ensures
        query@.form() is None ==> (result matches Ok(licenses) && licenses@.len() == 0),
        query@.form() matches Some(form) ==> exists|url: &str, fields: &Vec<(String, String)>|
            {
                &&& url@ == form.url()
                &&& fields_of(fields@) == form.fields()
                &&& #[trigger] ends_dispatch(post_form, url, fields, result)
            },
{
    match query.to_payload() {
        None => Ok(Vec::new()),
        Some(payload) => {
            let url = payload.url();
            let fields = payload.to_params();
            dispatch(url, &fields, post_form, wait)
        },
    }
}

} // verus!
