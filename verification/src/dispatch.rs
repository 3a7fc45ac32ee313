use crate::accounts::Context;
use crate::address::{is_record_address, Address};
use crate::error::DonationError;
use crate::instructions::donate_sol::DonateSol;
use crate::instructions::donate_token::DonateToken;
use crate::instructions::{donate_sol, donate_token};
use crate::wire::{
    le_bytes, le_value, lemma_capacity, lemma_le_bytes_len, lemma_le_bytes_of_value, lemma_le_value_of_bytes,
    lemma_text_at_is_unambiguous, push_le, push_text, read_le, read_text, starts_with, text_at, text_encodable,
    text_encoding,
};
use vstd::prelude::*;
use vstd::utf8::encode_utf8;

verus! {

/// The eight bytes that open the data of a native donation: the first eight of the SHA-256
/// hash of `global:donate_sol`.
pub const NATIVE_DONATION_SELECTOR: [u8; 8] = [168, 195, 198, 161, 226, 163, 222, 113];

/// The eight bytes that open the data of a token donation: the first eight of the SHA-256
/// hash of `global:donate_token`.
pub const TOKEN_DONATION_SELECTOR: [u8; 8] = [25, 216, 125, 238, 108, 3, 44, 126];

/// What an instruction asks for. There is nothing else that one can ask for.
#[derive(Clone, Copy, Debug, PartialEq, Eq, Structural)]
pub enum Operation {
    NativeDonation,
    TokenDonation,
}

/// An instruction as its sender means it: the operation, the identifier under which the
/// donation is recorded, and the amount.
#[derive(Clone, Debug)]
pub struct Instruction {
    pub operation: Operation,
    pub dog_id: String,
    pub amount: u64,
}

/// The selector of an operation.
pub open spec fn selector(operation: Operation) -> Seq<u8> {
    match operation {
        Operation::NativeDonation => NATIVE_DONATION_SELECTOR@,
        Operation::TokenDonation => TOKEN_DONATION_SELECTOR@,
    }
}

/// The data of an instruction: the selector of the operation, the identifier as a text, and
/// the amount in eight bytes, the lowest first. Nothing follows.
pub open spec fn instruction_encoding(operation: Operation, identifier: Seq<char>, amount: u64) -> Seq<u8> {
    selector(operation) + text_encoding(identifier) + le_bytes(amount as nat, 8)
}

/// What can be read off the data of an instruction.
pub proof fn lemma_instruction_encoding(operation: Operation, identifier: Seq<char>, amount: u64)
    requires
        text_encodable(identifier),
    ensures
        instruction_encoding(operation, identifier, amount).len() == 20 + encode_utf8(identifier).len(),
        instruction_encoding(operation, identifier, amount).subrange(0, 8) == selector(operation),
        text_at(instruction_encoding(operation, identifier, amount), 8, identifier),
        le_value(
            instruction_encoding(operation, identifier, amount).subrange(
                12 + encode_utf8(identifier).len() as int,
                20 + encode_utf8(identifier).len() as int,
            ),
        ) == amount,
{
    let data = instruction_encoding(operation, identifier, amount);
    let count = encode_utf8(identifier).len() as int;
    lemma_le_bytes_len(count as nat, 4);
    lemma_le_bytes_len(amount as nat, 8);
    lemma_capacity();
    lemma_le_value_of_bytes(amount as nat, 8);
    assert(data.subrange(0, 8) =~= selector(operation));
    assert(data.subrange(8, 12 + count) =~= text_encoding(identifier));
    assert(data.subrange(12 + count, 20 + count) =~= le_bytes(amount as nat, 8));
}

/// No data is the data of two instructions.
pub proof fn instruction_encoding_is_unambiguous(
    operation: Operation,
    identifier: Seq<char>,
    amount: u64,
    other_operation: Operation,
    other_identifier: Seq<char>,
    other_amount: u64,
)
    requires
        text_encodable(identifier),
        text_encodable(other_identifier),
        instruction_encoding(operation, identifier, amount) == instruction_encoding(
            other_operation,
            other_identifier,
            other_amount,
        ),
    ensures
        operation == other_operation,
        identifier == other_identifier,
        amount == other_amount,
{
    let data = instruction_encoding(operation, identifier, amount);
    lemma_instruction_encoding(operation, identifier, amount);
    lemma_instruction_encoding(other_operation, other_identifier, other_amount);
    lemma_text_at_is_unambiguous(data, 8, identifier, other_identifier);
    assert(NATIVE_DONATION_SELECTOR@[0] != TOKEN_DONATION_SELECTOR@[0]);
}

/// Reads an instruction from its data. Data that is the data of no instruction is refused.
pub fn decode_instruction(data: &[u8]) -> (decoded: Result<Instruction, DonationError>)
    ensures
        match decoded {
            Ok(instruction) => {
                &&& text_encodable(instruction.dog_id@)
                &&& data@ == instruction_encoding(
                    instruction.operation,
                    instruction.dog_id@,
                    instruction.amount,
                )
            },
            Err(error) => {
                &&& error == DonationError::UnknownInstruction
                &&& forall|operation: Operation, identifier: Seq<char>, amount: u64|
                    text_encodable(identifier) ==> data@ != #[trigger] instruction_encoding(
                        operation,
                        identifier,
                        amount,
                    )
            },
        },
{
    proof {
        assert forall|operation: Operation, identifier: Seq<char>, amount: u64|
            text_encodable(identifier) && data@ == #[trigger] instruction_encoding(
                operation,
                identifier,
                amount,
            ) implies {
            &&& data@.len() == 20 + encode_utf8(identifier).len()
            &&& data@.subrange(0, 8) == selector(operation)
            &&& text_at(data@, 8, identifier)
            &&& le_value(
                data@.subrange(
                    12 + encode_utf8(identifier).len() as int,
                    20 + encode_utf8(identifier).len() as int,
                ),
            ) == amount
        } by {
            lemma_instruction_encoding(operation, identifier, amount);
        }
    }
    let native = NATIVE_DONATION_SELECTOR;
    let token = TOKEN_DONATION_SELECTOR;
    let operation = if starts_with(data, native.as_slice()) {
        Operation::NativeDonation
    } else if starts_with(data, token.as_slice()) {
        Operation::TokenDonation
    } else {
        return Err(DonationError::UnknownInstruction);
    };
    let (dog_id, end) = match read_text(data, 8) {
        Some(read) => read,
        None => {
            return Err(DonationError::UnknownInstruction);
        },
    };
    proof {
        assert forall|operation: Operation, identifier: Seq<char>, amount: u64|
            text_encodable(identifier) && data@ == #[trigger] instruction_encoding(
                operation,
                identifier,
                amount,
            ) implies identifier == dog_id@ by {
            lemma_text_at_is_unambiguous(data@, 8, identifier, dog_id@);
        }
    }
    if data.len() - end != 8 {
        return Err(DonationError::UnknownInstruction);
    }
    let amount = read_le(data, end, 8);
    proof {
        lemma_le_bytes_of_value(data@.subrange(end as int, end + 8));
        assert(data@ =~= data@.subrange(0, 8) + data@.subrange(8, end as int) + data@.subrange(
            end as int,
            end + 8,
        ));
    }
    Ok(Instruction { operation, dog_id, amount })
}

/// Writes the data of an instruction, if its identifier is short enough to be written.
pub fn encode_instruction(instruction: &Instruction) -> (data: Option<Vec<u8>>)
    ensures
        match data {
            Some(data) => {
                &&& text_encodable(instruction.dog_id@)
                &&& data@ == instruction_encoding(
                    instruction.operation,
                    instruction.dog_id@,
                    instruction.amount,
                )
            },
            None => !text_encodable(instruction.dog_id@),
        },
{
    let dog_id = instruction.dog_id.as_str();
    if dog_id.as_bytes().len() > u32::MAX as usize {
        return None;
    }
    let mut data: Vec<u8> = Vec::new();
    match instruction.operation {
        Operation::NativeDonation => {
            let native = NATIVE_DONATION_SELECTOR;
            data.extend_from_slice(native.as_slice());
        },
        Operation::TokenDonation => {
            let token = TOKEN_DONATION_SELECTOR;
            data.extend_from_slice(token.as_slice());
        },
    }
    assert(data@ =~= selector(instruction.operation));
    push_text(&mut data, dog_id);
    push_le(&mut data, instruction.amount, 8);
    Some(data)
}

/// One account as the ledger presents it with an instruction: its address, whether its
/// holder has signed the transaction, and whether the instruction may change it.
#[derive(Clone, Copy, Debug)]
pub struct AccountMeta {
    pub key: Address,
    pub is_signer: bool,
    pub is_writable: bool,
}

/// How many accounts an operation takes.
pub open spec fn account_count(operation: Operation) -> nat {
    match operation {
        Operation::NativeDonation => 4,
        Operation::TokenDonation => 10,
    }
}

/// Whether the holder of the account at this place must have signed: the donor of either
/// operation, and the authority of a token donation.
pub open spec fn must_sign(operation: Operation, place: int) -> bool {
    match operation {
        Operation::NativeDonation => place == 0,
        Operation::TokenDonation => place == 0 || place == 8,
    }
}

/// Whether the operation must be free to change the account at this place: the donor, the
/// record and the recipient of a native donation; the donor, the record and the four token
/// accounts of a token donation.
pub open spec fn must_write(operation: Operation, place: int) -> bool {
    match operation {
        Operation::NativeDonation => place == 0 || place == 1 || place == 2,
        Operation::TokenDonation => place == 0 || place == 1 || place == 3 || place == 4 || place == 6
            || place == 7,
    }
}

/// Whether a list of accounts has the shape that the operation declares: as many accounts as
/// it takes, each signed for and open to change where the operation needs it so.
pub open spec fn has_shape(operation: Operation, accounts: Seq<AccountMeta>) -> bool {
    &&& accounts.len() == account_count(operation)
    &&& forall|place: int|
        0 <= place < accounts.len() ==> {
            &&& must_sign(operation, place) ==> (#[trigger] accounts[place]).is_signer
            &&& must_write(operation, place) ==> accounts[place].is_writable
        }
}

/// Holds a list of accounts against the shape that the operation declares.
pub fn check_shape(operation: Operation, accounts: &[AccountMeta]) -> (fits: bool)
    ensures
        fits == has_shape(operation, accounts@),
{
    let count: usize = match operation {
        Operation::NativeDonation => 4,
        Operation::TokenDonation => 10,
    };
    if accounts.len() != count {
        return false;
    }
    let mut place: usize = 0;
    while place < count
        invariant
            place <= count == accounts.len() == account_count(operation),
            forall|before: int|
                0 <= before < place ==> {
                    &&& must_sign(operation, before) ==> (#[trigger] accounts@[before]).is_signer
                    &&& must_write(operation, before) ==> accounts@[before].is_writable
                },
        decreases count - place,
    {
        let signs = match operation {
            Operation::NativeDonation => place == 0,
            Operation::TokenDonation => place == 0 || place == 8,
        };
        let writes = match operation {
            Operation::NativeDonation => place <= 2,
            Operation::TokenDonation => place <= 1 || place == 3 || place == 4 || place == 6 || place == 7,
        };
        if (signs && !accounts[place].is_signer) || (writes && !accounts[place].is_writable) {
            return false;
        }
        place += 1;
    }
    true
}

/// Records a donation of native currency.
pub fn donate_sol(ctx: &mut Context<DonateSol>, dog_id: String, amount: u64) -> (result: Result<
    (),
    DonationError,
>)
    ensures
        donate_sol::is_outcome(
            old(ctx)@,
            dog_id,
            amount,
            is_record_address(old(ctx).program_id, dog_id@, old(ctx)@.accounts.donation_record.key),
            result,
            final(ctx)@,
        ),
        result is Err ==> *final(ctx) == *old(ctx),
        old(ctx)@.accounts.valid(),
        final(ctx)@.accounts.valid(),
{
    donate_sol::handler(ctx, dog_id, amount)
}

/// Records a donation of tokens.
pub fn donate_token<'info>(
    ctx: &mut Context<DonateToken<'info>>,
    dog_id: String,
    amount: u64,
) -> (result: Result<(), DonationError>)
    ensures
        exists|transferred: bool| #[trigger]
            donate_token::is_outcome(
                old(ctx)@,
                dog_id,
                amount,
                is_record_address(old(ctx).program_id, dog_id@, old(ctx)@.accounts.donation_record.key),
                transferred,
                result,
                final(ctx)@,
            ),
        result is Err ==> *final(ctx) == *old(ctx),
        final(ctx).accounts.handles() == old(ctx).accounts.handles(),
        old(ctx)@.accounts.valid(),
        final(ctx)@.accounts.valid(),
{
    donate_token::handler(ctx, dog_id, amount)
}

} // verus!
