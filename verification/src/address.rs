//! Identities on the ledger.

use vstd::prelude::*;

verus! {

/// The identity of an account or of a contract, as the text by which the
/// ledger knows it.  Two addresses are the same identity exactly when their
/// texts are equal; nothing else is read from an address.
#[derive(Debug, PartialEq, Eq)]
pub struct Address {
    text: String,
}

impl View for Address {
    type V = Seq<char>;

    closed spec fn view(&self) -> Seq<char> {
        self.text@
    }
}

impl Address {
    /// The address written as `text`.
    pub fn new(text: &str) -> (a: Address)
        ensures
            a@ == text@,
    {
        Address { text: text.to_owned() }
    }

    /// The text of the address.
    pub fn as_str(&self) -> (text: &str)
        ensures
            text@ == self@,
    {
        self.text.as_str()
    }

    /// Whether `self` and `other` are the same identity.
    pub fn same_as(&self, other: &Address) -> (same: bool)
        ensures
            same == (self@ == other@),
    {
        self.text == other.text
    }
}

impl Clone for Address {
    fn clone(&self) -> (copy: Address)
        ensures
            copy == *self,
    {
        Address { text: self.text.clone() }
    }
}

} // verus!
