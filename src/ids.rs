//! Fresh identifiers for sessions and ledger records.
use vstd::prelude::*;

verus! {

/// A new random identifier. Relies on `uuid::Uuid::new_v4` and its `Display`
/// form, the hyphenated text of 36 characters.
#[verifier::external_body]
pub fn fresh_id() -> (r: String)
    ensures
        r@.len() == 36,
{
    uuid::Uuid::new_v4().to_string()
}

} // verus!
