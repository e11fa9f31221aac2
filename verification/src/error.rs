//! Why an operation was refused.

use vstd::prelude::*;

verus! {

#[derive(Clone, Debug, PartialEq, Eq)]
pub enum ContractError {
    /// The host's storage failed; the text is its message.
    Std(String),
    /// The attached coins are not the bundle the party agreed to.
    FundsNotEqualToConfig,
    /// A bundle that the operation needs is not committed.
    FundsHaventBeenDeposited,
    /// The party's bundle is already committed.
    FundsAlreadyDeposited,
    /// An identity given at creation was not accepted by the host.
    InvalidAddress,
    /// Kept for hosts that report a missing bundle under this name.
    AtLeastOnePartyFundsAreMissing,
    /// The caller is neither of the two parties.
    Unauthorized,
}

impl ContractError {
    /// The text of the message shown to a caller.
    pub open spec fn message_text(self) -> Seq<char> {
        match self {
            ContractError::Std(text) => text@,
            ContractError::FundsNotEqualToConfig => "The deposited funds are not equal to the agreed funds"@,
            ContractError::FundsHaventBeenDeposited => "Funds haven't been deposited"@,
            ContractError::FundsAlreadyDeposited => "Funds already deposited"@,
            ContractError::InvalidAddress => "Invalid Address"@,
            ContractError::AtLeastOnePartyFundsAreMissing => "At least one party's funds are missing. Both parties funds should be in the contract for the exchange to be processed"@,
            ContractError::Unauthorized => "Unothorised! Make sure you call this contract from party A or party B "@,
        }
    }

    /// The message shown to a caller.
    pub fn message(&self) -> (text: String)
        ensures
            text@ == self.message_text(),
    {
        match self {
            ContractError::Std(text) => text.clone(),
            ContractError::FundsNotEqualToConfig => "The deposited funds are not equal to the agreed funds".to_owned(),
            ContractError::FundsHaventBeenDeposited => "Funds haven't been deposited".to_owned(),
            ContractError::FundsAlreadyDeposited => "Funds already deposited".to_owned(),
            ContractError::InvalidAddress => "Invalid Address".to_owned(),
            ContractError::AtLeastOnePartyFundsAreMissing => "At least one party's funds are missing. Both parties funds should be in the contract for the exchange to be processed".to_owned(),
            ContractError::Unauthorized => "Unothorised! Make sure you call this contract from party A or party B ".to_owned(),
        }
    }
}

} // verus!
