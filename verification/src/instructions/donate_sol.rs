use crate::accounts::{Context, RecordAccount, Wallet};
use crate::address::{
    find_record_address, is_record_address, lemma_address_view_injective, system_program_id, Address,
};
use crate::error::DonationError;
use crate::state::donation_record::{identifier_fits, record_space, DonationRecord, RECORD_SPACE};
use vstd::prelude::*;

verus! {

/// The accounts of a native donation, as plain values.
pub struct DonateSolView {
    pub donor: Wallet,
    pub donation_record: RecordAccount,
    pub recipient: Wallet,
    pub system_program: Address,
}

impl DonateSolView {
    /// The instruction names each account once, the system program is the system program,
    /// and the two balances are part of one supply that fits in 64 bits.
    pub open spec fn valid(self) -> bool {
        &&& self.donor.key != self.donation_record.key
        &&& self.donor.key != self.recipient.key
        &&& self.donation_record.key != self.recipient.key
        &&& self.system_program == system_program_id()
        &&& self.donor.lamports + self.recipient.lamports <= u64::MAX
    }
}

/// The accounts of a native donation: the donor, who signs and pays; the account of the
/// record; the recipient; and the system program.
pub struct DonateSol {
    donor: Wallet,
    donation_record: RecordAccount,
    recipient: Wallet,
    system_program: Address,
}

impl View for DonateSol {
    type V = DonateSolView;

    closed spec fn view(&self) -> DonateSolView {
        DonateSolView {
            donor: self.donor,
            donation_record: self.donation_record,
            recipient: self.recipient,
            system_program: self.system_program,
        }
    }
}

impl DonateSol {
    #[verifier::type_invariant]
    closed spec fn inv(&self) -> bool {
        self@.valid()
    }

    /// Puts the accounts of one instruction together, if they are valid together.
    pub fn new(
        donor: Wallet,
        donation_record: RecordAccount,
        recipient: Wallet,
        system_program: Address,
    ) -> (accounts: Option<DonateSol>)
        ensures
            match accounts {
                Some(a) => {
                    &&& a@.valid()
                    &&& a@ == (DonateSolView { donor, donation_record, recipient, system_program })
                },
                None => !(DonateSolView { donor, donation_record, recipient, system_program }).valid(),
            },
    {
        if donor.key == donation_record.key {
            return None;
        }
        if donor.key == recipient.key || donation_record.key == recipient.key {
            return None;
        }
        if system_program != system_program_id() {
            return None;
        }
        match donor.lamports.checked_add(recipient.lamports) {
            Some(_) => Some(DonateSol { donor, donation_record, recipient, system_program }),
            None => None,
        }
    }

    pub fn donor(&self) -> (donor: &Wallet)
        ensures
            *donor == self@.donor,
    {
        &self.donor
    }

    pub fn donation_record(&self) -> (donation_record: &RecordAccount)
        ensures
            *donation_record == self@.donation_record,
    {
        &self.donation_record
    }

    pub fn recipient(&self) -> (recipient: &Wallet)
        ensures
            *recipient == self@.recipient,
    {
        &self.recipient
    }

    pub fn system_program(&self) -> (system_program: &Address)
        ensures
            *system_program == self@.system_program,
    {
        &self.system_program
    }
}

/// Why a native donation is refused, if it is. `derived` says whether the record account is
/// at the address derived from the identifier.
pub open spec fn refusal(
    ctx: Context<DonateSolView>,
    identifier: Seq<char>,
    amount: u64,
    derived: bool,
) -> Option<DonationError> {
    if record_space(identifier) > RECORD_SPACE {
        Some(DonationError::IdentifierTooLong)
    } else if !derived {
        Some(DonationError::InvalidDerivation)
    } else if ctx.accounts.donation_record.record is Some {
        Some(DonationError::DuplicateDonation)
    } else if ctx.accounts.donor.lamports < amount + ctx.record_reserve {
        Some(DonationError::InsufficientFunds)
    } else {
        None
    }
}

/// The ledger after a native donation that was not refused.
pub open spec fn donated(ctx: Context<DonateSolView>, dog_id: String, amount: u64) -> Context<DonateSolView> {
    Context {
        accounts: DonateSolView {
            donor: Wallet {
                key: ctx.accounts.donor.key,
                lamports: (ctx.accounts.donor.lamports - amount - ctx.record_reserve) as u64,
            },
            donation_record: RecordAccount {
                key: ctx.accounts.donation_record.key,
                record: Some(
                    DonationRecord {
                        dog_id,
                        donor: ctx.accounts.donor.key,
                        amount,
                        token_mint: None,
                        timestamp: ctx.unix_timestamp,
                    },
                ),
            },
            recipient: Wallet {
                key: ctx.accounts.recipient.key,
                lamports: (ctx.accounts.recipient.lamports + amount) as u64,
            },
            system_program: ctx.accounts.system_program,
        },
        ..ctx
    }
}

/// A native donation either is refused and changes nothing, or goes through whole.
pub open spec fn is_outcome(
    before: Context<DonateSolView>,
    dog_id: String,
    amount: u64,
    derived: bool,
    result: Result<(), DonationError>,
    after: Context<DonateSolView>,
) -> bool {
    match refusal(before, dog_id@, amount, derived) {
        Some(error) => result == Err::<(), DonationError>(error) && after == before,
        None => result is Ok && after == donated(before, dog_id, amount),
    }
}

/// Carries out a native donation, given the address that was derived for its identifier.
pub fn settle(
    ctx: &mut Context<DonateSol>,
    dog_id: String,
    amount: u64,
    derived: Option<(Address, u8)>,
) -> (result: Result<(), DonationError>)
    ensures
        is_outcome(
            old(ctx)@,
            dog_id,
            amount,
            derived matches Some((address, _)) && address == old(ctx)@.accounts.donation_record.key,
            result,
            final(ctx)@,
        ),
        result is Err ==> *final(ctx) == *old(ctx),
        old(ctx)@.accounts.valid(),
        final(ctx)@.accounts.valid(),
{
    proof {
        use_type_invariant(&ctx.accounts);
    }
    if !identifier_fits(dog_id.as_str()) {
        return Err(DonationError::IdentifierTooLong);
    }
    match derived {
        Some((address, _)) => {
            if address != ctx.accounts.donation_record.key {
                return Err(DonationError::InvalidDerivation);
            }
        },
        None => {
            return Err(DonationError::InvalidDerivation);
        },
    }
    if ctx.accounts.donation_record.record.is_some() {
        return Err(DonationError::DuplicateDonation);
    }
    let cost = match amount.checked_add(ctx.record_reserve) {
        Some(cost) => cost,
        None => {
            return Err(DonationError::InsufficientFunds);
        },
    };
    if ctx.accounts.donor.lamports < cost {
        return Err(DonationError::InsufficientFunds);
    }
    let record = DonationRecord {
        dog_id,
        donor: ctx.accounts.donor.key,
        amount,
        token_mint: None,
        timestamp: ctx.unix_timestamp,
    };
    ctx.accounts.donor.lamports = ctx.accounts.donor.lamports - cost;
    ctx.accounts.recipient.lamports = ctx.accounts.recipient.lamports + amount;
    ctx.accounts.donation_record.record = Some(record);
    Ok(())
}

/// Records a donation of native currency: moves `amount` from the donor to the recipient and
/// writes the record of `dog_id`, or refuses and changes nothing.
pub fn handler(ctx: &mut Context<DonateSol>, dog_id: String, amount: u64) -> (result: Result<
    (),
    DonationError,
>)
    ensures
        is_outcome(
            old(ctx)@,
            dog_id,
            amount,
            is_record_address(old(ctx).program_id, dog_id@, old(ctx)@.accounts.donation_record.key),
            result,
            final(ctx)@,
        ),
        result is Err ==> *final(ctx) == *old(ctx),
        old(ctx)@.accounts.valid(),
        final(ctx)@.accounts.valid(),
{
    let derived = find_record_address(&ctx.program_id, dog_id.as_str());
    proof {
        if let Some((address, _)) = derived {
            lemma_address_view_injective(address, ctx.accounts.donation_record.key);
        }
    }
    settle(ctx, dog_id, amount, derived)
}

} // verus!
