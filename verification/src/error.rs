use vstd::prelude::*;

verus! {

/// Why a donation was refused. Every refusal leaves the ledger as it was.
#[derive(Clone, Copy, Debug, PartialEq, Eq, Structural)]
pub enum DonationError {
    /// The identifier needs more bytes than a stored record has room for.
    IdentifierTooLong,
    /// The record account is not at the address derived from the identifier.
    InvalidDerivation,
    /// The record account already holds a record.
    DuplicateDonation,
    /// The donor cannot cover the amount and the record's reserve.
    InsufficientFunds,
    /// The authority is neither owner nor delegate of the source token account.
    AuthorityMismatch,
    /// The token program refused the transfer.
    TokenTransferFailed,
    /// The instruction data names no instruction of this program.
    UnknownInstruction,
}

impl DonationError {
    /// What `code` returns.
    pub open spec fn spec_code(self) -> u32 {
        match self {
            DonationError::IdentifierTooLong => 6000,
            DonationError::InvalidDerivation => 6001,
            DonationError::DuplicateDonation => 6002,
            DonationError::InsufficientFunds => 6003,
            DonationError::AuthorityMismatch => 6004,
            DonationError::TokenTransferFailed => 6005,
            DonationError::UnknownInstruction => 6006,
        }
    }

    /// The number by which the ledger reports this error to the sender.
    #[verifier::when_used_as_spec(spec_code)]
    pub fn code(self) -> (code: u32)
        ensures
            code == self.spec_code(),
    {
        match self {
            DonationError::IdentifierTooLong => 6000,
            DonationError::InvalidDerivation => 6001,
            DonationError::DuplicateDonation => 6002,
            DonationError::InsufficientFunds => 6003,
            DonationError::AuthorityMismatch => 6004,
            DonationError::TokenTransferFailed => 6005,
            DonationError::UnknownInstruction => 6006,
        }
    }

    /// The number tells the errors apart: no two errors are reported by the same number.
    pub proof fn code_identifies_the_error(self, other: DonationError)
        requires
            self.code() == other.code(),
        ensures
            self == other,
    {
    }
}

} // verus!
