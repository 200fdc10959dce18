use vstd::prelude::*;

verus! {

/// Why an escrow operation was refused. Every refusal leaves the ledger as it was.
#[derive(Clone, Copy, Debug, PartialEq, Eq, Structural)]
pub enum Errors {
    /// The asset is unknown to the registry, malformed, not the one the record
    /// names, or the registry refused to move it.
    InvalidAsset,
    /// The escrow's asset is not held in custody.
    NotListed,
    /// The signer is not the party that the operation is reserved for.
    Unauthorized,
    /// A supplied address is not the one that the seed and nonce derive.
    AddressMismatch,
    /// No record lives at the targeted address.
    NotFound,
    /// The asking price is zero.
    InvalidPrice,
    /// An account holds less than the amount that has to leave it.
    InsufficientFunds,
    /// A currency account is missing, or belongs to another owner or currency.
    AccountMismatch,
    /// The asset is owned by someone other than the party moving it.
    OwnershipConflict,
    /// A balance would exceed what 64 bits can hold.
    Overflow,
}

impl Errors {
    /// What went wrong, in words.
    pub fn message(&self) -> (text: &'static str)
        ensures
            text@ == match *self {
                Errors::InvalidAsset => "Invalid Asset"@,
                Errors::NotListed => "Escrow is not listed"@,
                Errors::Unauthorized => "Signer is not authorized"@,
                Errors::AddressMismatch => "Address does not match the derivation"@,
                Errors::NotFound => "Escrow not found"@,
                Errors::InvalidPrice => "Price must be positive"@,
                Errors::InsufficientFunds => "Insufficient funds"@,
                Errors::AccountMismatch => "Currency account mismatch"@,
                Errors::OwnershipConflict => "Asset is held by another owner"@,
                Errors::Overflow => "Balance overflow"@,
            },
    {
        match self {
            Errors::InvalidAsset => "Invalid Asset",
            Errors::NotListed => "Escrow is not listed",
            Errors::Unauthorized => "Signer is not authorized",
            Errors::AddressMismatch => "Address does not match the derivation",
            Errors::NotFound => "Escrow not found",
            Errors::InvalidPrice => "Price must be positive",
            Errors::InsufficientFunds => "Insufficient funds",
            Errors::AccountMismatch => "Currency account mismatch",
            Errors::OwnershipConflict => "Asset is held by another owner",
            Errors::Overflow => "Balance overflow",
        }
    }
}

} // verus!
