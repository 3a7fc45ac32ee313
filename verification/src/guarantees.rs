use crate::accounts::{Context, RecordAccount};
use crate::address::{is_record_address, Address};
use crate::error::DonationError;
use crate::instructions::donate_sol;
use crate::instructions::donate_sol::DonateSolView;
use crate::instructions::donate_token;
use crate::instructions::donate_token::DonateTokenView;
use crate::state::donation_record::{record_space, DonationRecord, RECORD_SPACE};
use vstd::prelude::*;

verus! {

/// A native donation is all or nothing: either it goes through, the record is there and the
/// amount has moved from the donor to the recipient, or it is refused and the ledger is as it
/// was. This holds for every reason of refusal, the lack of funds included.
pub proof fn native_donation_is_atomic(
    before: Context<DonateSolView>,
    dog_id: String,
    amount: u64,
    derived: bool,
    result: Result<(), DonationError>,
    after: Context<DonateSolView>,
)
    requires
        before.accounts.valid(),
        donate_sol::is_outcome(before, dog_id, amount, derived, result, after),
    ensures
        result is Ok ==> {
            &&& before.accounts.donation_record.record is None
            &&& after.accounts.donation_record.record == Some(
                DonationRecord {
                    dog_id,
                    donor: before.accounts.donor.key,
                    amount,
                    token_mint: None,
                    timestamp: before.unix_timestamp,
                },
            )
            &&& after.accounts.donor.lamports == before.accounts.donor.lamports - amount - before.record_reserve
            &&& after.accounts.recipient.lamports == before.accounts.recipient.lamports + amount
        },
        result is Err ==> after == before,
{
}

/// A token donation is all or nothing: it goes through only if the token program made the
/// transfer, and then the record is there and the donor has paid its reserve; if the donation
/// is refused or the token program fails the transfer, the ledger is as it was and no record
/// is written.
pub proof fn token_donation_is_atomic(
    before: Context<DonateTokenView>,
    dog_id: String,
    amount: u64,
    derived: bool,
    transferred: bool,
    result: Result<(), DonationError>,
    after: Context<DonateTokenView>,
)
    requires
        before.accounts.valid(),
        donate_token::is_outcome(before, dog_id, amount, derived, transferred, result, after),
    ensures
        result is Ok ==> {
            &&& transferred
            &&& before.accounts.donation_record.record is None
            &&& after.accounts.donation_record.record == Some(
                DonationRecord {
                    dog_id,
                    donor: before.accounts.donor.key,
                    amount,
                    token_mint: Some(before.accounts.token_mint),
                    timestamp: before.unix_timestamp,
                },
            )
            &&& after.accounts.donor.lamports == before.accounts.donor.lamports - before.record_reserve
        },
        result is Err ==> after == before,
        donate_token::refusal(before, dog_id@, derived) is None && !transferred ==> result == Err::<
            (),
            DonationError,
        >(DonationError::TokenTransferFailed),
{
}

/// A native donation that goes through takes from the donor exactly the amount and the
/// record's reserve, gives the recipient exactly the amount, and changes no address: what
/// the two hold together falls by the reserve and by nothing else.
pub proof fn native_donation_conserves(
    before: Context<DonateSolView>,
    dog_id: String,
    amount: u64,
    derived: bool,
    after: Context<DonateSolView>,
)
    requires
        before.accounts.valid(),
        donate_sol::is_outcome(before, dog_id, amount, derived, Ok(()), after),
    ensures
        before.accounts.donor.lamports - after.accounts.donor.lamports == amount + before.record_reserve,
        after.accounts.recipient.lamports - before.accounts.recipient.lamports == amount,
        after.accounts.donor.lamports + after.accounts.recipient.lamports + before.record_reserve
            == before.accounts.donor.lamports + before.accounts.recipient.lamports,
        after.accounts.donor.key == before.accounts.donor.key,
        after.accounts.recipient.key == before.accounts.recipient.key,
        after.accounts.donation_record.key == before.accounts.donation_record.key,
        after.accounts.valid(),
{
}

/// A donation that has been made, of either kind: the ledger before it and after it.
pub enum Donation {
    Native { before: Context<DonateSolView>, after: Context<DonateSolView> },
    Token { before: Context<DonateTokenView>, after: Context<DonateTokenView> },
}

impl Donation {
    /// Whether this is a donation of `amount` under `dog_id` that went through.
    pub open spec fn went_through(self, dog_id: String, amount: u64) -> bool {
        match self {
            Donation::Native { before, after } => donate_sol::is_outcome(
                before,
                dog_id,
                amount,
                is_record_address(before.program_id, dog_id@, before.accounts.donation_record.key),
                Ok(()),
                after,
            ),
            Donation::Token { before, after } => donate_token::is_outcome(
                before,
                dog_id,
                amount,
                is_record_address(before.program_id, dog_id@, before.accounts.donation_record.key),
                true,
                Ok(()),
                after,
            ),
        }
    }

    /// The program to which the donation was made.
    pub open spec fn program_id(self) -> Address {
        match self {
            Donation::Native { before, .. } => before.program_id,
            Donation::Token { before, .. } => before.program_id,
        }
    }

    /// The record account as the donation left it.
    pub open spec fn record_account(self) -> RecordAccount {
        match self {
            Donation::Native { after, .. } => after.accounts.donation_record,
            Donation::Token { after, .. } => after.accounts.donation_record,
        }
    }
}

/// After a donation of either kind has gone through, every native donation under the same
/// identifier to the same program is refused as a duplicate, whoever gives and whatever the
/// amount, and the record of the first stays as it was written.
pub proof fn native_donation_is_not_repeated(
    first: Donation,
    dog_id: String,
    amount: u64,
    second: Context<DonateSolView>,
    again: String,
    again_amount: u64,
    result: Result<(), DonationError>,
    after: Context<DonateSolView>,
)
    requires
        first.went_through(dog_id, amount),
        second.program_id == first.program_id(),
        second.accounts.donation_record == first.record_account(),
        again@ == dog_id@,
        donate_sol::is_outcome(
            second,
            again,
            again_amount,
            is_record_address(second.program_id, again@, second.accounts.donation_record.key),
            result,
            after,
        ),
    ensures
        result == Err::<(), DonationError>(DonationError::DuplicateDonation),
        after == second,
        after.accounts.donation_record == first.record_account(),
{
}

/// After a donation of either kind has gone through, every token donation under the same
/// identifier to the same program, made in the name of an authority that the token program
/// recognizes for its source, is refused as a duplicate, whatever the token program would
/// have answered, and the record of the first stays as it was written.
pub proof fn token_donation_is_not_repeated(
    first: Donation,
    dog_id: String,
    amount: u64,
    second: Context<DonateTokenView>,
    again: String,
    again_amount: u64,
    transferred: bool,
    result: Result<(), DonationError>,
    after: Context<DonateTokenView>,
)
    requires
        first.went_through(dog_id, amount),
        second.program_id == first.program_id(),
        second.accounts.donation_record == first.record_account(),
        second.accounts.source.recognizes(second.accounts.authority),
        again@ == dog_id@,
        donate_token::is_outcome(
            second,
            again,
            again_amount,
            is_record_address(second.program_id, again@, second.accounts.donation_record.key),
            transferred,
            result,
            after,
        ),
    ensures
        result == Err::<(), DonationError>(DonationError::DuplicateDonation),
        after == second,
        after.accounts.donation_record == first.record_account(),
{
}

/// A record is written once: no donation of either kind, refused or not, changes a record
/// that is there, and no refused donation writes one.
pub proof fn record_is_written_once(
    made: Donation,
    dog_id: String,
    amount: u64,
    derived: bool,
    transferred: bool,
    result: Result<(), DonationError>,
)
    requires
        match made {
            Donation::Native { before, after } => donate_sol::is_outcome(
                before,
                dog_id,
                amount,
                derived,
                result,
                after,
            ),
            Donation::Token { before, after } => donate_token::is_outcome(
                before,
                dog_id,
                amount,
                derived,
                transferred,
                result,
                after,
            ),
        },
    ensures
        match made {
            Donation::Native { before, after } => {
                &&& before.accounts.donation_record.record is Some ==> after.accounts.donation_record
                    == before.accounts.donation_record
                &&& result is Err ==> after.accounts.donation_record == before.accounts.donation_record
            },
            Donation::Token { before, after } => {
                &&& before.accounts.donation_record.record is Some ==> after.accounts.donation_record
                    == before.accounts.donation_record
                &&& result is Err ==> after.accounts.donation_record == before.accounts.donation_record
            },
        },
{
}

/// The record that a donation writes fits into the space set aside for a record, and lies at
/// the address derived from its identifier.
pub proof fn written_record_can_be_stored(made: Donation, dog_id: String, amount: u64)
    requires
        made.went_through(dog_id, amount),
    ensures
        made.record_account().record matches Some(record) && record.dog_id == dog_id && record.amount == amount
            && record.fits(),
        is_record_address(made.program_id(), dog_id@, made.record_account().key),
{
}

/// A token donation in the name of an authority that is neither owner nor delegate of the
/// source is refused for that reason, and changes nothing, whenever the identifier fits a
/// record and the record account is at the derived address.
pub proof fn unrecognized_authority_is_refused(
    before: Context<DonateTokenView>,
    dog_id: String,
    amount: u64,
    transferred: bool,
    result: Result<(), DonationError>,
    after: Context<DonateTokenView>,
)
    requires
        record_space(dog_id@) <= RECORD_SPACE,
        !before.accounts.source.recognizes(before.accounts.authority),
        donate_token::is_outcome(before, dog_id, amount, true, transferred, result, after),
    ensures
        result == Err::<(), DonationError>(DonationError::AuthorityMismatch),
        after == before,
{
}

} // verus!
