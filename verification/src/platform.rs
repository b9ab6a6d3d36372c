//! Facts about the application itself.

use vstd::prelude::*;

verus! {

/// The application's name, the package name, used for its data directory
/// and database file.
pub fn app_name() -> (r: &'static str)
    ensures
        r@ == "calendar"@,
{
    "calendar"
}

} // verus!
