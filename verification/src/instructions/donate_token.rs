use crate::accounts::{Authority, Context, RecordAccount, TokenAccount, TokenHolding, Wallet};
use crate::address::{
    find_record_address, is_record_address, lemma_address_view_injective, system_program_id, Address,
};
use crate::error::DonationError;
use crate::state::donation_record::{identifier_fits, record_space, DonationRecord, RECORD_SPACE};
use anchor_lang::context::CpiContext;
use anchor_lang::error::Error;
use anchor_lang::solana_program::account_info::AccountInfo;
use anchor_spl::token::Transfer;
use vstd::prelude::*;

verus! {

/// The error with which the token program, or the ledger on the way to it, answers a request.
#[verifier::external_type_specification]
#[verifier::external_body]
pub struct ExError(Error);

/// The accounts of a token donation, as plain values.
pub struct DonateTokenView {
    pub donor: Wallet,
    pub donation_record: RecordAccount,
    pub token_mint: Address,
    pub donor_token_account: Address,
    pub recipient_token_account: Address,
    pub system_program: Address,
    pub source: TokenHolding,
    pub authority: Address,
}

impl DonateTokenView {
    /// The donor and the record are two accounts, and the system program is the system
    /// program.
    pub open spec fn valid(self) -> bool {
        &&& self.donor.key != self.donation_record.key
        &&& self.system_program == system_program_id()
    }
}

/// The accounts of a token donation: the donor, who signs and pays for the record; the
/// account of the record; the mint of the token; the token accounts of donor and recipient,
/// for reference; the system program; the token accounts that the transfer debits and
/// credits; the authority over the source; and the token program.
pub struct DonateToken<'info> {
    donor: Wallet,
    donation_record: RecordAccount,
    token_mint: Address,
    donor_token_account: Address,
    recipient_token_account: Address,
    system_program: Address,
    source: TokenAccount<'info>,
    destination: AccountInfo<'info>,
    authority: Authority<'info>,
    csl_spl_token_v0_0_0: AccountInfo<'info>,
}

impl<'info> View for DonateToken<'info> {
    type V = DonateTokenView;

    closed spec fn view(&self) -> DonateTokenView {
        DonateTokenView {
            donor: self.donor,
            donation_record: self.donation_record,
            token_mint: self.token_mint,
            donor_token_account: self.donor_token_account,
            recipient_token_account: self.recipient_token_account,
            system_program: self.system_program,
            source: self.source.holding,
            authority: self.authority.key,
        }
    }
}

/// The handles that go to the token program with a request.
pub struct TransferHandles<'info> {
    pub source: AccountInfo<'info>,
    pub destination: AccountInfo<'info>,
    pub authority: AccountInfo<'info>,
    pub token_program: AccountInfo<'info>,
}

impl<'info> DonateToken<'info> {
    #[verifier::type_invariant]
    closed spec fn inv(&self) -> bool {
        self@.valid()
    }

    /// The handles that these accounts hold for the token program.
    pub closed spec fn handles(&self) -> TransferHandles<'info> {
        TransferHandles {
            source: self.source.info,
            destination: self.destination,
            authority: self.authority.info,
            token_program: self.csl_spl_token_v0_0_0,
        }
    }

    /// Puts the accounts of one instruction together, if they are valid together.
    pub fn new(
        donor: Wallet,
        donation_record: RecordAccount,
        token_mint: Address,
        donor_token_account: Address,
        recipient_token_account: Address,
        system_program: Address,
        source: TokenAccount<'info>,
        destination: AccountInfo<'info>,
        authority: Authority<'info>,
        csl_spl_token_v0_0_0: AccountInfo<'info>,
    ) -> (accounts: Option<DonateToken<'info>>)
        ensures
            match accounts {
                Some(a) => {
                    &&& a@.valid()
                    &&& a@ == (DonateTokenView {
                        donor,
                        donation_record,
                        token_mint,
                        donor_token_account,
                        recipient_token_account,
                        system_program,
                        source: source.holding,
                        authority: authority.key,
                    })
                    &&& a.handles() == (TransferHandles {
                        source: source.info,
                        destination,
                        authority: authority.info,
                        token_program: csl_spl_token_v0_0_0,
                    })
                },
                None => donor.key == donation_record.key || system_program != system_program_id(),
            },
    {
        if donor.key == donation_record.key || system_program != system_program_id() {
            return None;
        }
        Some(
            DonateToken {
                donor,
                donation_record,
                token_mint,
                donor_token_account,
                recipient_token_account,
                system_program,
                source,
                destination,
                authority,
                csl_spl_token_v0_0_0,
            },
        )
    }

    pub fn donor(&self) -> (donor: &Wallet)
        ensures
            *donor == self@.donor,
    {
        &self.donor
    }

    pub fn donation_record(&self) -> (donation_record: &RecordAccount)
        ensures
            *donation_record == self@.donation_record,
    {
        &self.donation_record
    }

    pub fn token_mint(&self) -> (token_mint: &Address)
        ensures
            *token_mint == self@.token_mint,
    {
        &self.token_mint
    }

    pub fn donor_token_account(&self) -> (donor_token_account: &Address)
        ensures
            *donor_token_account == self@.donor_token_account,
    {
        &self.donor_token_account
    }

    pub fn recipient_token_account(&self) -> (recipient_token_account: &Address)
        ensures
            *recipient_token_account == self@.recipient_token_account,
    {
        &self.recipient_token_account
    }

    pub fn system_program(&self) -> (system_program: &Address)
        ensures
            *system_program == self@.system_program,
    {
        &self.system_program
    }

    pub fn source(&self) -> (source: &TokenHolding)
        ensures
            *source == self@.source,
    {
        &self.source.holding
    }

    pub fn authority(&self) -> (authority: &Address)
        ensures
            *authority == self@.authority,
    {
        &self.authority.key
    }

    /// Asks the token program to move `amount` tokens from the source to the destination in
    /// the name of the authority, by `anchor_spl::token::transfer`. Nothing is claimed of the
    /// answer: it is the token program's. The request is made only for an authority that the
    /// token program recognizes for the source, and only while the record is yet to be written.
    #[verifier::external_body]
    pub fn cpi_csl_spl_token_transfer(&self, amount: u64) -> (answer: Result<(), Error>)
        requires
            self@.source.recognizes(self@.authority),
            self@.donation_record.record is None,
    {
        anchor_spl::token::transfer(
            CpiContext::new(
                self.csl_spl_token_v0_0_0.clone(),
                Transfer {
                    from: self.source.info.clone(),
                    to: self.destination.clone(),
                    authority: self.authority.info.clone(),
                },
            ),
            amount,
        )
    }
}

/// Why a token donation is refused before the token program is asked, if it is. `derived`
/// says whether the record account is at the address derived from the identifier.
pub open spec fn refusal(ctx: Context<DonateTokenView>, identifier: Seq<char>, derived: bool) -> Option<
    DonationError,
> {
    if record_space(identifier) > RECORD_SPACE {
        Some(DonationError::IdentifierTooLong)
    } else if !derived {
        Some(DonationError::InvalidDerivation)
    } else if !ctx.accounts.source.recognizes(ctx.accounts.authority) {
        Some(DonationError::AuthorityMismatch)
    } else if ctx.accounts.donation_record.record is Some {
        Some(DonationError::DuplicateDonation)
    } else if ctx.accounts.donor.lamports < ctx.record_reserve {
        Some(DonationError::InsufficientFunds)
    } else {
        None
    }
}

/// The ledger after a token donation that went through, but for the token accounts, which
/// the token program keeps.
pub open spec fn donated(ctx: Context<DonateTokenView>, dog_id: String, amount: u64) -> Context<
    DonateTokenView,
> {
    Context {
        accounts: DonateTokenView {
            donor: Wallet {
                key: ctx.accounts.donor.key,
                lamports: (ctx.accounts.donor.lamports - ctx.record_reserve) as u64,
            },
            donation_record: RecordAccount {
                key: ctx.accounts.donation_record.key,
                record: Some(
                    DonationRecord {
                        dog_id,
                        donor: ctx.accounts.donor.key,
                        amount,
                        token_mint: Some(ctx.accounts.token_mint),
                        timestamp: ctx.unix_timestamp,
                    },
                ),
            },
            ..ctx.accounts
        },
        ..ctx
    }
}

/// A token donation is refused and changes nothing, or the token program fails the transfer
/// and nothing changes, or the transfer is made and the record written.
pub open spec fn is_outcome(
    before: Context<DonateTokenView>,
    dog_id: String,
    amount: u64,
    derived: bool,
    transferred: bool,
    result: Result<(), DonationError>,
    after: Context<DonateTokenView>,
) -> bool {
    match refusal(before, dog_id@, derived) {
        Some(error) => result == Err::<(), DonationError>(error) && after == before,
        None => if transferred {
            result is Ok && after == donated(before, dog_id, amount)
        } else {
            result == Err::<(), DonationError>(DonationError::TokenTransferFailed) && after == before
        },
    }
}

/// Says why a token donation is refused before the token program is asked, if it is, given
/// the address that was derived for its identifier.
pub fn examine<'info>(
    ctx: &Context<DonateToken<'info>>,
    dog_id: &str,
    derived: Option<(Address, u8)>,
) -> (refused: Option<DonationError>)
    ensures
        refused == refusal(
            ctx@,
            dog_id@,
            derived matches Some((address, _)) && address == ctx@.accounts.donation_record.key,
        ),
{
    if !identifier_fits(dog_id) {
        return Some(DonationError::IdentifierTooLong);
    }
    match derived {
        Some((address, _)) => {
            if address != ctx.accounts.donation_record.key {
                return Some(DonationError::InvalidDerivation);
            }
        },
        None => {
            return Some(DonationError::InvalidDerivation);
        },
    }
    if !ctx.accounts.source.holding.recognizes(ctx.accounts.authority.key) {
        return Some(DonationError::AuthorityMismatch);
    }
    if ctx.accounts.donation_record.record.is_some() {
        return Some(DonationError::DuplicateDonation);
    }
    if ctx.accounts.donor.lamports < ctx.record_reserve {
        return Some(DonationError::InsufficientFunds);
    }
    None
}

/// Concludes a token donation, given the address that was derived for its identifier and
/// whether the token program made the transfer.
pub fn settle<'info>(
    ctx: &mut Context<DonateToken<'info>>,
    dog_id: String,
    amount: u64,
    derived: Option<(Address, u8)>,
    transferred: bool,
) -> (result: Result<(), DonationError>)
    ensures
        is_outcome(
            old(ctx)@,
            dog_id,
            amount,
            derived matches Some((address, _)) && address == old(ctx)@.accounts.donation_record.key,
            transferred,
            result,
            final(ctx)@,
        ),
        result is Err ==> *final(ctx) == *old(ctx),
        final(ctx).accounts.handles() == old(ctx).accounts.handles(),
        old(ctx)@.accounts.valid(),
        final(ctx)@.accounts.valid(),
{
    proof {
        use_type_invariant(&ctx.accounts);
    }
    if let Some(error) = examine(ctx, dog_id.as_str(), derived) {
        return Err(error);
    }
    if !transferred {
        return Err(DonationError::TokenTransferFailed);
    }
    let record = DonationRecord {
        dog_id,
        donor: ctx.accounts.donor.key,
        amount,
        token_mint: Some(ctx.accounts.token_mint),
        timestamp: ctx.unix_timestamp,
    };
    ctx.accounts.donor.lamports = ctx.accounts.donor.lamports - ctx.record_reserve;
    ctx.accounts.donation_record.record = Some(record);
    Ok(())
}

/// Records a donation of tokens: has the token program move `amount` from the source to the
/// destination and writes the record of `dog_id`, or refuses and changes nothing.
pub fn handler<'info>(
    ctx: &mut Context<DonateToken<'info>>,
    dog_id: String,
    amount: u64,
) -> (result: Result<(), DonationError>)
    ensures
        exists|transferred: bool| #[trigger]
            is_outcome(
                old(ctx)@,
                dog_id,
                amount,
                is_record_address(old(ctx).program_id, dog_id@, old(ctx)@.accounts.donation_record.key),
                transferred,
                result,
                final(ctx)@,
            ),
        result is Err ==> *final(ctx) == *old(ctx),
        final(ctx).accounts.handles() == old(ctx).accounts.handles(),
        old(ctx)@.accounts.valid(),
        final(ctx)@.accounts.valid(),
{
    let derived = find_record_address(&ctx.program_id, dog_id.as_str());
    let ghost at_address = is_record_address(ctx.program_id, dog_id@, ctx@.accounts.donation_record.key);
    proof {
        use_type_invariant(&ctx.accounts);
        if let Some((address, _)) = derived {
            lemma_address_view_injective(address, ctx.accounts.donation_record.key);
        }
    }
    if let Some(error) = examine(ctx, dog_id.as_str(), derived) {
        assert(is_outcome(ctx@, dog_id, amount, at_address, false, Err(error), ctx@));
        return Err(error);
    }
    let transferred = match ctx.accounts.cpi_csl_spl_token_transfer(amount) {
        Ok(()) => true,
        Err(_) => false,
    };
    settle(ctx, dog_id, amount, derived, transferred)
}

} // verus!
