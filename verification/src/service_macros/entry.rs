//! The entry of the `service` attribute: where the `service` crate is.
use vstd::prelude::*;

use crate::domain_macros::entry::FoundCrate;

verus! {

/// The path generated code names the `service` crate by: `crate` inside it,
/// `::name` when it is a dependency, and `::service` when it was not found.
pub fn crate_root(found: Option<FoundCrate>) -> (r: String)
    ensures
        found matches Some(FoundCrate::Itself) ==> r@ == "crate"@,
        found matches Some(FoundCrate::Name(n)) ==> r@ == "::"@ + n@,
        found is None ==> r@ == "::service"@,
{
    match found {
        Some(FoundCrate::Itself) => "crate".to_owned(),
        Some(FoundCrate::Name(n)) => {
            let mut s = String::new();
            s.append("::");
            s.append(n.as_str());
            s
        },
        None => "::service".to_owned(),
    }
}

} // verus!
