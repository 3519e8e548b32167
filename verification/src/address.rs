//! Identifiers of the parties and contracts that the marketplace deals with.

use vstd::prelude::*;

verus! {

/// An opaque identifier of an account or a contract, held in the text form in
/// which the ledger names it. Two addresses are the same party exactly when
/// their texts are equal; the marketplace never looks inside the text.
#[derive(Debug, PartialEq, Eq)]
pub struct Address {
    pub key: String,
}

impl View for Address {
    type V = Seq<char>;

    open spec fn view(&self) -> Seq<char> {
        self.key@
    }
}

impl Clone for Address {
    fn clone(&self) -> (copy: Self)
        ensures
            copy == *self,
    {
        Address { key: self.key.clone() }
    }
}

impl Address {
    /// Wraps the text form of an identifier.
    pub fn new(key: String) -> (address: Address)
        ensures
            address.key == key,
            address@ == key@,
    {
        Address { key }
    }

    /// Builds an address from a string slice.
    pub fn from_str(key: &str) -> (address: Address)
        ensures
            address@ == key@,
    {
        Address { key: key.to_owned() }
    }

    /// The text form of the identifier.
    pub fn as_str(&self) -> (text: &str)
        ensures
            text@ == self@,
    {
        self.key.as_str()
    }

    /// Whether two addresses name the same party.
    pub fn same_as(&self, other: &Address) -> (same: bool)
        ensures
            same == (self@ == other@),
    {
        self.key == other.key
    }
}

} // verus!
