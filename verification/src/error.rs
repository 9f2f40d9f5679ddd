use vstd::prelude::*;

use crate::decimal::{decimal, u128_to_decimal};

verus! {

/// Why a call was refused.
#[derive(Debug, PartialEq, Eq)]
pub enum ContractError {
    /// A failure reported by the chain (storage, address validation, queries), with its message.
    Std(String),
    Unauthorized {},
    ContractPaused {},
    ZeroAmount {},
    InsufficientBalance { available: u128, needed: u128 },
    TrancheNotFound { id: u32 },
    TrancheAlreadyReleased { id: u32 },
    TrancheNotUnlocked { id: u32, unlock_at: u64 },
}

/// The text by which each error reports itself.
pub open spec fn error_message(e: ContractError) -> Seq<char> {
    match e {
        ContractError::Std(m) => m@,
        ContractError::Unauthorized {  } => "Unauthorized"@,
        ContractError::ContractPaused {  } => "Contract is paused"@,
        ContractError::ZeroAmount {  } => "Zero amount not allowed"@,
        ContractError::InsufficientBalance { available, needed } => "Insufficient contract balance: "@
            + decimal(available as nat) + ", needed: "@ + decimal(needed as nat),
        ContractError::TrancheNotFound { id } => "Tranche "@ + decimal(id as nat)
            + " not found (valid: 0-3)"@,
        ContractError::TrancheAlreadyReleased { id } => "Tranche "@ + decimal(id as nat)
            + " already released"@,
        ContractError::TrancheNotUnlocked { id, unlock_at } => "Tranche "@ + decimal(id as nat)
            + " is locked until timestamp "@ + decimal(unlock_at as nat),
    }
}

impl ContractError {
    /// The text by which the error reports itself.
    pub fn message(&self) -> (s: String)
        ensures
            s@ == error_message(*self),
    {
        match self {
            ContractError::Std(m) => m.clone(),
            ContractError::Unauthorized {  } => String::from_str("Unauthorized"),
            ContractError::ContractPaused {  } => String::from_str("Contract is paused"),
            ContractError::ZeroAmount {  } => String::from_str("Zero amount not allowed"),
            ContractError::InsufficientBalance { available, needed } => {
                let a = u128_to_decimal(*available);
                let n = u128_to_decimal(*needed);
                String::from_str("Insufficient contract balance: ").concat(a.as_str()).concat(
                    ", needed: ",
                ).concat(n.as_str())
            },
            ContractError::TrancheNotFound { id } => {
                let i = u128_to_decimal(*id as u128);
                String::from_str("Tranche ").concat(i.as_str()).concat(" not found (valid: 0-3)")
            },
            ContractError::TrancheAlreadyReleased { id } => {
                let i = u128_to_decimal(*id as u128);
                String::from_str("Tranche ").concat(i.as_str()).concat(" already released")
            },
            ContractError::TrancheNotUnlocked { id, unlock_at } => {
                let i = u128_to_decimal(*id as u128);
                let t = u128_to_decimal(*unlock_at as u128);
                String::from_str("Tranche ").concat(i.as_str()).concat(
                    " is locked until timestamp ",
                ).concat(t.as_str())
            },
        }
    }
}

} // verus!
