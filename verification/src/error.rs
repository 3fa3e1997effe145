//! Why a claim was turned down.

use vstd::prelude::*;

verus! {

/// The reasons for which a claim is refused. A refused claim changes nothing.
#[derive(Clone, Copy, Debug, PartialEq, Eq, Structural)]
pub enum WarrantyError {
    /// No warranty was ever issued under the id.
    NotFound,
    /// The warranty has been claimed before.
    AlreadyClaimed,
    /// The current time is past the warranty's expiry date.
    Expired,
    /// The claimer is not the warranty's owner.
    Unauthorized,
}

impl WarrantyError {
    /// The text that goes with each error.
    pub open spec fn message_text(self) -> Seq<char> {
        match self {
            WarrantyError::NotFound => "Warranty not found!"@,
            WarrantyError::AlreadyClaimed => "Warranty already claimed!"@,
            WarrantyError::Expired => "Warranty expired!"@,
            WarrantyError::Unauthorized => "Unauthorized!"@,
        }
    }

    /// A short text for the error, fit for a log line or an abort message.
    pub fn message(&self) -> (text: &'static str)
        ensures
            text@ == self.message_text(),
    {
        match self {
            WarrantyError::NotFound => "Warranty not found!",
            WarrantyError::AlreadyClaimed => "Warranty already claimed!",
            WarrantyError::Expired => "Warranty expired!",
            WarrantyError::Unauthorized => "Unauthorized!",
        }
    }
}

} // verus!
