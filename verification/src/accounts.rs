use crate::address::{token_program_id, Address};
use crate::state::donation_record::DonationRecord;
use anchor_lang::solana_program::account_info::AccountInfo;
use vstd::prelude::*;

verus! {

/// The ledger's handle to one account of the running instruction. The library passes it on
/// to the token program and reads nothing from it.
#[verifier::external_type_specification]
#[verifier::external_body]
pub struct ExAccountInfo<'a>(AccountInfo<'a>);

/// An account that holds native currency.
#[derive(Clone, Copy, Debug)]
pub struct Wallet {
    pub key: Address,
    pub lamports: u64,
}

/// The account at which a record is kept: empty until a donation fills it.
#[derive(Clone, Debug)]
pub struct RecordAccount {
    pub key: Address,
    pub record: Option<DonationRecord>,
}

/// What the token program says of a token account: the program that keeps the account, its
/// owner, and the delegate that the owner has approved, if any.
#[derive(Clone, Copy, Debug)]
pub struct TokenHolding {
    pub program: Address,
    pub owner: Address,
    pub delegate: Option<Address>,
}

impl TokenHolding {
    /// What `recognizes` computes.
    pub open spec fn spec_recognizes(self, authority: Address) -> bool {
        &&& self.program == token_program_id()
        &&& (self.owner == authority || self.delegate == Some(authority))
    }

    /// Whether the token program lets `authority` move tokens out of this account: the
    /// account is one of the token program's, and `authority` is its owner or its delegate.
    #[verifier::when_used_as_spec(spec_recognizes)]
    pub fn recognizes(self, authority: Address) -> (recognized: bool)
        ensures
            recognized == self.spec_recognizes(authority),
    {
        if self.program != token_program_id() {
            return false;
        }
        if self.owner == authority {
            return true;
        }
        match self.delegate {
            Some(delegate) => delegate == authority,
            None => false,
        }
    }
}

/// A token account: what the token program says of it, as whoever presents the account
/// has read it, and the handle to the account itself.
pub struct TokenAccount<'info> {
    pub holding: TokenHolding,
    pub info: AccountInfo<'info>,
}

/// The signer in whose name tokens are moved: its address, and the handle to its account.
pub struct Authority<'info> {
    pub key: Address,
    pub info: AccountInfo<'info>,
}

/// What the ledger hands to a handler: the program's own address, the accounts of the
/// instruction, the time, and what must be set aside to keep one record.
pub struct Context<T> {
    pub program_id: Address,
    pub accounts: T,
    pub unix_timestamp: i64,
    pub record_reserve: u64,
}

impl<T: View> View for Context<T> {
    type V = Context<T::V>;

    open spec fn view(&self) -> Context<T::V> {
        Context {
            program_id: self.program_id,
            accounts: self.accounts@,
            unix_timestamp: self.unix_timestamp,
            record_reserve: self.record_reserve,
        }
    }
}

} // verus!
