//! The layout of the result page: where a result card and each of its
//! fields stand, as CSS selectors, and the two notices that the page shows
//! in place of results. A change of the page's layout is mended here.

use vstd::prelude::*;

verus! {

/// The notice of a search that matched nothing.
pub const NO_RESULTS_NOTICE: &'static str = "No results found";

/// The notice of a search that matched too much to be listed.
pub const TOO_MANY_RESULTS_NOTICE: &'static str = "Too many search results";

/// The format in which the page writes a date: day, full name of the
/// month, year.
pub const EXPIRY_FORMAT: &'static str = "%d %B %Y";

/// The longest page or card, in bytes, that is handed to the HTML parser.
///
/// The parser keeps each text in a buffer that it cannot grow beyond 2^31
/// bytes, and a text can come out three times as long as it went in, so a
/// longer input is not read at all.
pub const MAX_HTML_BYTES: usize = 536_870_912;

/// The longest selector, in bytes, that is handed to the selector parser,
/// whose depth of nesting is bounded by nothing but the length.
pub const MAX_SELECTOR_BYTES: usize = 256;

/// A result card, within the page.
pub const CONTAINER_SELECTOR: &'static str = "div[class*='well']";

/// The first name, within a card.
pub const FIRST_NAME_SELECTOR: &'static str =
    "div:nth-of-type(1) > div:nth-of-type(1) > div > div";

/// The last name, within a card.
pub const LAST_NAME_SELECTOR: &'static str =
    "div:nth-of-type(1) > div:nth-of-type(2) > div > div";

/// The licence number, within a card.
pub const LICENSE_NUMBER_SELECTOR: &'static str =
    "div:nth-of-type(2) > div:nth-of-type(1) > div > div";

/// The role, within a card.
pub const ROLE_SELECTOR: &'static str = "div:nth-of-type(2) > div:nth-of-type(2) > div > div";

/// The sector, within a card.
pub const SECTOR_SELECTOR: &'static str = "div:nth-of-type(2) > div:nth-of-type(3) > div > div";

/// The expiry date, within a card.
pub const EXPIRY_SELECTOR: &'static str = "div:nth-of-type(3) > div:nth-of-type(1) > div > div";

/// The status, within a card.
pub const STATUS_SELECTOR: &'static str =
    "div:nth-of-type(3) > div:nth-of-type(2) > div > span:nth-of-type(1)";

/// The reason for the status, within a card.
pub const STATUS_REASON_SELECTOR: &'static str =
    "div:nth-of-type(4) > div > div:nth-of-type(2) > span:nth-of-type(1)";

/// The licence conditions, within a card.
pub const LICENSE_CONDITIONS_SELECTOR: &'static str =
    "div:nth-of-type(5) > div > div:nth-of-type(2)";

} // verus!
