//! The identity of a party, held as its textual key.

use vstd::prelude::*;

verus! {

/// Who owns a warranty, or who is asking to claim one.
///
/// The ledger never looks inside the key: two addresses are the same party
/// exactly when their keys are the same text.
#[derive(Debug)]
pub struct Address {
    strkey: String,
}

impl View for Address {
    type V = Seq<char>;

    closed spec fn view(&self) -> Seq<char> {
        self.strkey@
    }
}

impl Clone for Address {
    fn clone(&self) -> (copy: Self)
        ensures
            copy@ == self@,
    {
        Address { strkey: self.strkey.clone() }
    }
}

impl PartialEq for Address {
    fn eq(&self, other: &Address) -> (same: bool) {
        self.strkey == other.strkey
    }
}

impl Eq for Address {}

impl vstd::std_specs::cmp::PartialEqSpecImpl for Address {
    open spec fn obeys_eq_spec() -> bool {
        true
    }

    open spec fn eq_spec(&self, other: &Address) -> bool {
        self@ == other@
    }
}

impl Address {
    /// The address whose key is `strkey`.
    pub fn from_string(strkey: String) -> (address: Address)
        ensures
            address@ == strkey@,
    {
        Address { strkey }
    }

    /// The key of this address.
    pub fn to_string(&self) -> (strkey: String)
        ensures
            strkey@ == self@,
    {
        self.strkey.clone()
    }
}

} // verus!
