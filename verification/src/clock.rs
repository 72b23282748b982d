//! The current date.

use vstd::prelude::*;

verus! {

/// Calls `chrono::Utc::now`, takes the date of that moment and writes it
/// with its `Display`, which for the years 0 to 9999 gives `YYYY-MM-DD`.
/// Nothing is assumed of the text: it depends on the clock. `Utc::now`
/// panics where the system clock stands before 1970.
#[verifier::external_body]
pub(crate) fn current_date() -> (today: String) {
    chrono::Utc::now().date_naive().to_string()
}

} // verus!
