//! The contract that answers.

use vstd::prelude::*;

verus! {

/// The contract.
pub struct Hola;

impl Hola {
    /// Returns the greeting, which the ledger holds as a short symbol.
    pub fn ping() -> (greeting: &'static str)
        ensures
            greeting@ == "HOLA"@,
    {
        "HOLA"
    }
}

} // verus!
