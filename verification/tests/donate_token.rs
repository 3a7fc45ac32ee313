use anchor_lang::prelude::{AccountInfo, Pubkey};
use anchor_lang::solana_program::entrypoint::ProgramResult;
use anchor_lang::solana_program::instruction::Instruction;
use anchor_lang::solana_program::program_error::ProgramError;
use anchor_lang::solana_program::program_option::COption;
use anchor_lang::solana_program::program_pack::Pack;
use anchor_lang::solana_program::program_stubs::{set_syscall_stubs, SyscallStubs};
use anchor_spl::token::spl_token;
use anchor_spl::token::spl_token::state::{Account, AccountState};
use donation_program::accounts::{Authority, Context, RecordAccount, TokenAccount, TokenHolding, Wallet};
use donation_program::address::Address;
use donation_program::error::DonationError;
use donation_program::instructions::donate_token::{examine, handler, settle, DonateToken};
use donation_program::state::donation_record::DonationRecord;

const PROGRAM: [u8; 32] = [
    58, 131, 112, 123, 147, 190, 99, 62, 117, 252, 167, 228, 173, 86, 54, 44, 16, 32, 225, 109, 215, 255, 45, 159,
    253, 32, 75, 94, 187, 103, 86, 183,
];

/// Stands in for the ledger: hands a request to the token program's own processor.
struct TokenProgram;

impl SyscallStubs for TokenProgram {
    fn sol_invoke_signed(
        &self,
        instruction: &Instruction,
        account_infos: &[AccountInfo],
        _signers_seeds: &[&[&[u8]]],
    ) -> ProgramResult {
        if instruction.program_id != spl_token::ID {
            return Err(ProgramError::IncorrectProgramId);
        }
        let mut accounts = Vec::new();
        for meta in instruction.accounts.iter() {
            match account_infos.iter().find(|info| *info.key == meta.pubkey) {
                Some(info) => accounts.push(info.clone()),
                None => return Err(ProgramError::NotEnoughAccountKeys),
            }
        }
        spl_token::processor::Processor::process(&instruction.program_id, &accounts, &instruction.data)
    }
}

fn address(key: &Pubkey) -> Address {
    Address { bytes: key.to_bytes() }
}

fn key(byte: u8) -> Pubkey {
    Pubkey::new_from_array([byte; 32])
}

fn record_key(dog_id: &str) -> Pubkey {
    Pubkey::find_program_address(&[b"donation", dog_id.as_bytes()], &Pubkey::new_from_array(PROGRAM)).0
}

fn token_account(mint: Pubkey, owner: Pubkey, amount: u64, delegate: Option<(Pubkey, u64)>) -> Vec<u8> {
    let account = Account {
        mint,
        owner,
        amount,
        delegate: match delegate {
            Some((delegate, _)) => COption::Some(delegate),
            None => COption::None,
        },
        state: AccountState::Initialized,
        is_native: COption::None,
        delegated_amount: match delegate {
            Some((_, allowance)) => allowance,
            None => 0,
        },
        close_authority: COption::None,
    };
    let mut data = vec![0u8; Account::LEN];
    Account::pack(account, &mut data).unwrap();
    data
}

struct Case {
    dog_id: &'static str,
    record_at: Pubkey,
    existing: Option<DonationRecord>,
    amount: u64,
    donor_lamports: u64,
    record_reserve: u64,
    source_program: Pubkey,
    source_owner: Pubkey,
    source_delegate: Option<(Pubkey, u64)>,
    source_balance: u64,
    authority: Pubkey,
}

fn case(dog_id: &'static str) -> Case {
    Case {
        dog_id,
        record_at: record_key(dog_id),
        existing: None,
        amount: 100,
        donor_lamports: 5_000_000,
        record_reserve: 1_607_760,
        source_program: spl_token::ID,
        source_owner: key(20),
        source_delegate: None,
        source_balance: 1_000,
        authority: key(20),
    }
}

struct Outcome {
    result: Result<(), DonationError>,
    donor_lamports: u64,
    record: Option<DonationRecord>,
    source_balance: u64,
    destination_balance: u64,
}

/// What the handler is to do once the accounts stand.
enum Step {
    Handle,
    Examine(Option<(Address, u8)>),
    Settle(Option<(Address, u8)>, bool),
}

fn run(case: Case) -> Outcome {
    step(case, Step::Handle)
}

fn step(case: Case, step: Step) -> Outcome {
    set_syscall_stubs(Box::new(TokenProgram));
    let mint = key(10);
    let (source_key, destination_key, system_key) = (key(21), key(22), Pubkey::new_from_array([0; 32]));
    let token_program_key = spl_token::ID;
    let mut source_data = token_account(mint, case.source_owner, case.source_balance, case.source_delegate);
    let mut destination_data = token_account(mint, key(23), 7, None);
    let (mut source_lamports, mut destination_lamports) = (2_039_280u64, 2_039_280u64);
    let (mut authority_lamports, mut program_lamports) = (1u64, 1u64);
    let (mut authority_data, mut program_data) = (Vec::<u8>::new(), Vec::<u8>::new());
    let result;
    let donor_lamports;
    let record;
    {
        let source = AccountInfo::new(
            &source_key,
            false,
            true,
            &mut source_lamports,
            &mut source_data,
            &case.source_program,
            false,
            0,
        );
        let destination = AccountInfo::new(
            &destination_key,
            false,
            true,
            &mut destination_lamports,
            &mut destination_data,
            &token_program_key,
            false,
            0,
        );
        let authority = AccountInfo::new(
            &case.authority,
            true,
            false,
            &mut authority_lamports,
            &mut authority_data,
            &system_key,
            false,
            0,
        );
        let token_program = AccountInfo::new(
            &token_program_key,
            false,
            false,
            &mut program_lamports,
            &mut program_data,
            &system_key,
            true,
            0,
        );
        let accounts = DonateToken::new(
            Wallet { key: address(&key(1)), lamports: case.donor_lamports },
            RecordAccount { key: address(&case.record_at), record: case.existing },
            address(&mint),
            address(&key(24)),
            address(&key(25)),
            address(&system_key),
            TokenAccount {
                holding: TokenHolding {
                    program: address(&case.source_program),
                    owner: address(&case.source_owner),
                    delegate: case.source_delegate.map(|(delegate, _)| address(&delegate)),
                },
                info: source,
            },
            destination,
            Authority { key: address(&case.authority), info: authority },
            token_program,
        )
        .unwrap();
        let mut ctx = Context {
            program_id: Address { bytes: PROGRAM },
            accounts,
            unix_timestamp: 1_700_000_123,
            record_reserve: case.record_reserve,
        };
        assert_eq!(*ctx.accounts.token_mint(), address(&mint));
        assert_eq!(*ctx.accounts.donor_token_account(), address(&key(24)));
        assert_eq!(*ctx.accounts.recipient_token_account(), address(&key(25)));
        assert_eq!(*ctx.accounts.system_program(), address(&system_key));
        assert_eq!(*ctx.accounts.authority(), address(&case.authority));
        assert_eq!(ctx.accounts.source().owner, address(&case.source_owner));
        result = match step {
            Step::Handle => handler(&mut ctx, String::from(case.dog_id), case.amount),
            Step::Examine(derived) => match examine(&ctx, case.dog_id, derived) {
                Some(error) => Err(error),
                None => Ok(()),
            },
            Step::Settle(derived, transferred) => {
                settle(&mut ctx, String::from(case.dog_id), case.amount, derived, transferred)
            }
        };
        donor_lamports = ctx.accounts.donor().lamports;
        record = ctx.accounts.donation_record().record.clone();
    }
    Outcome {
        result,
        donor_lamports,
        record,
        source_balance: Account::unpack(&source_data).unwrap().amount,
        destination_balance: Account::unpack(&destination_data).unwrap().amount,
    }
}

#[test]
fn token_donation_moves_the_tokens_and_writes_the_record() {
    let outcome = run(case("rex-1"));
    assert_eq!(outcome.result, Ok(()));
    assert_eq!(outcome.source_balance, 900);
    assert_eq!(outcome.destination_balance, 107);
    assert_eq!(outcome.donor_lamports, 5_000_000 - 1_607_760);
    let record = outcome.record.unwrap();
    assert_eq!(record.dog_id, "rex-1");
    assert_eq!(record.donor, address(&key(1)));
    assert_eq!(record.amount, 100);
    assert_eq!(record.token_mint, Some(address(&key(10))));
    assert_eq!(record.timestamp, 1_700_000_123);
}

#[test]
fn token_donation_by_a_stranger_is_an_authority_mismatch() {
    let outcome = run(Case { authority: key(30), ..case("rex-1") });
    assert_eq!(outcome.result, Err(DonationError::AuthorityMismatch));
    assert!(outcome.record.is_none());
    assert_eq!(outcome.source_balance, 1_000);
    assert_eq!(outcome.destination_balance, 7);
    assert_eq!(outcome.donor_lamports, 5_000_000);
}

#[test]
fn token_donation_by_the_delegate_goes_through() {
    let outcome = run(Case { authority: key(30), source_delegate: Some((key(30), 250)), ..case("rex-1") });
    assert_eq!(outcome.result, Ok(()));
    assert_eq!(outcome.source_balance, 900);
    assert_eq!(outcome.destination_balance, 107);
    assert_eq!(outcome.record.unwrap().amount, 100);
}

#[test]
fn token_donation_beside_another_delegate_is_an_authority_mismatch() {
    let outcome = run(Case { authority: key(30), source_delegate: Some((key(31), 250)), ..case("rex-1") });
    assert_eq!(outcome.result, Err(DonationError::AuthorityMismatch));
    assert!(outcome.record.is_none());
    assert_eq!(outcome.source_balance, 1_000);
}

#[test]
fn token_donation_from_an_account_of_another_program_is_an_authority_mismatch() {
    let outcome = run(Case { source_program: key(40), ..case("rex-1") });
    assert_eq!(outcome.result, Err(DonationError::AuthorityMismatch));
    assert!(outcome.record.is_none());
    assert_eq!(outcome.source_balance, 1_000);
    assert_eq!(outcome.destination_balance, 7);
}

#[test]
fn token_donation_that_the_token_program_fails_leaves_no_record() {
    let outcome = run(Case { amount: 1_001, ..case("rex-1") });
    assert_eq!(outcome.result, Err(DonationError::TokenTransferFailed));
    assert!(outcome.record.is_none());
    assert_eq!(outcome.donor_lamports, 5_000_000);
    assert_eq!(outcome.source_balance, 1_000);
    assert_eq!(outcome.destination_balance, 7);
}

#[test]
fn token_donation_beyond_the_delegated_amount_fails_in_the_token_program() {
    let outcome = run(Case { authority: key(30), source_delegate: Some((key(30), 99)), ..case("rex-1") });
    assert_eq!(outcome.result, Err(DonationError::TokenTransferFailed));
    assert!(outcome.record.is_none());
    assert_eq!(outcome.source_balance, 1_000);
}

#[test]
fn token_donation_to_another_address_is_an_invalid_derivation() {
    let outcome = run(Case { record_at: record_key("rex-2"), ..case("rex-1") });
    assert_eq!(outcome.result, Err(DonationError::InvalidDerivation));
    assert!(outcome.record.is_none());
    assert_eq!(outcome.source_balance, 1_000);
}

#[test]
fn invalid_derivation_is_reported_before_authority_mismatch() {
    let outcome = run(Case { record_at: record_key("rex-2"), authority: key(30), ..case("rex-1") });
    assert_eq!(outcome.result, Err(DonationError::InvalidDerivation));
}

#[test]
fn token_donation_under_a_long_identifier_is_refused() {
    let outcome = run(case("0123456789a"));
    assert_eq!(outcome.result, Err(DonationError::IdentifierTooLong));
    assert!(outcome.record.is_none());
    assert_eq!(outcome.source_balance, 1_000);
}

#[test]
fn second_token_donation_under_one_identifier_is_a_duplicate() {
    let first = run(case("rex-1"));
    assert_eq!(first.result, Ok(()));
    let outcome = run(Case { existing: first.record.clone(), amount: 5, ..case("rex-1") });
    assert_eq!(outcome.result, Err(DonationError::DuplicateDonation));
    assert_eq!(outcome.source_balance, 1_000);
    assert_eq!(outcome.destination_balance, 7);
    assert_eq!(outcome.donor_lamports, 5_000_000);
    let record = outcome.record.unwrap();
    assert_eq!(record.amount, 100);
    assert_eq!(record.dog_id, "rex-1");
    assert_eq!(record.timestamp, 1_700_000_123);
}

#[test]
fn token_donation_after_a_native_one_under_the_same_identifier_is_a_duplicate() {
    let native = DonationRecord {
        dog_id: String::from("rex-1"),
        donor: address(&key(50)),
        amount: 500_000,
        token_mint: None,
        timestamp: 1_600_000_000,
    };
    let outcome = run(Case { existing: Some(native), ..case("rex-1") });
    assert_eq!(outcome.result, Err(DonationError::DuplicateDonation));
    assert_eq!(outcome.source_balance, 1_000);
    assert_eq!(outcome.destination_balance, 7);
    assert_eq!(outcome.donor_lamports, 5_000_000);
    let record = outcome.record.unwrap();
    assert_eq!(record.donor, address(&key(50)));
    assert_eq!(record.amount, 500_000);
    assert_eq!(record.token_mint, None);
    assert_eq!(record.timestamp, 1_600_000_000);
}

#[test]
fn authority_mismatch_is_reported_before_duplicate() {
    let first = run(case("rex-1"));
    let outcome = run(Case { existing: first.record.clone(), authority: key(30), ..case("rex-1") });
    assert_eq!(outcome.result, Err(DonationError::AuthorityMismatch));
    assert_eq!(outcome.record.unwrap().amount, 100);
}

#[test]
fn token_donation_whose_donor_cannot_pay_the_reserve_moves_no_tokens() {
    let outcome = run(Case { donor_lamports: 1_607_759, ..case("rex-1") });
    assert_eq!(outcome.result, Err(DonationError::InsufficientFunds));
    assert!(outcome.record.is_none());
    assert_eq!(outcome.donor_lamports, 1_607_759);
    assert_eq!(outcome.source_balance, 1_000);
    assert_eq!(outcome.destination_balance, 7);
    let exact = run(Case { donor_lamports: 1_607_760, ..case("rex-1") });
    assert_eq!(exact.result, Ok(()));
    assert_eq!(exact.donor_lamports, 0);
    assert_eq!(exact.source_balance, 900);
}

#[test]
fn examination_finds_the_first_reason_to_refuse_and_changes_nothing() {
    let at = Some((address(&record_key("rex-1")), 254));
    assert_eq!(step(case("rex-1"), Step::Examine(at)).result, Ok(()));
    assert!(step(case("rex-1"), Step::Examine(at)).record.is_none());
    assert_eq!(step(case("rex-1"), Step::Examine(at)).donor_lamports, 5_000_000);
    assert_eq!(step(case("rex-1"), Step::Examine(None)).result, Err(DonationError::InvalidDerivation));
    let elsewhere = Some((address(&record_key("rex-2")), 254));
    assert_eq!(step(case("rex-1"), Step::Examine(elsewhere)).result, Err(DonationError::InvalidDerivation));
    assert_eq!(
        step(Case { authority: key(30), ..case("rex-1") }, Step::Examine(at)).result,
        Err(DonationError::AuthorityMismatch)
    );
    assert_eq!(
        step(Case { donor_lamports: 0, ..case("rex-1") }, Step::Examine(at)).result,
        Err(DonationError::InsufficientFunds)
    );
    assert_eq!(
        step(Case { donor_lamports: 0, record_reserve: 0, ..case("rex-1") }, Step::Examine(at)).result,
        Ok(())
    );
}

#[test]
fn settlement_goes_by_the_answer_of_the_token_program_and_asks_for_nothing() {
    let at = Some((address(&record_key("rex-1")), 254));
    let made = step(case("rex-1"), Step::Settle(at, true));
    assert_eq!(made.result, Ok(()));
    assert_eq!(made.donor_lamports, 5_000_000 - 1_607_760);
    assert_eq!(made.source_balance, 1_000);
    assert_eq!(made.destination_balance, 7);
    let record = made.record.unwrap();
    assert_eq!(record.amount, 100);
    assert_eq!(record.token_mint, Some(address(&key(10))));
    let failed = step(case("rex-1"), Step::Settle(at, false));
    assert_eq!(failed.result, Err(DonationError::TokenTransferFailed));
    assert!(failed.record.is_none());
    assert_eq!(failed.donor_lamports, 5_000_000);
    let refused = step(Case { authority: key(30), ..case("rex-1") }, Step::Settle(at, true));
    assert_eq!(refused.result, Err(DonationError::AuthorityMismatch));
    assert!(refused.record.is_none());
    let nowhere = step(case("rex-1"), Step::Settle(None, true));
    assert_eq!(nowhere.result, Err(DonationError::InvalidDerivation));
}

fn together(donor: Pubkey, record: Pubkey, system: Pubkey) -> bool {
    let keys = [key(21), key(22), key(20), spl_token::ID];
    let owner = Pubkey::new_from_array([0; 32]);
    let mut lamports = [1u64; 4];
    let mut data = [Vec::<u8>::new(), Vec::<u8>::new(), Vec::<u8>::new(), Vec::<u8>::new()];
    let mut infos = Vec::new();
    for ((key, lamports), data) in keys.iter().zip(lamports.iter_mut()).zip(data.iter_mut()) {
        infos.push(AccountInfo::new(key, false, true, lamports, data, &owner, false, 0));
    }
    let holding = TokenHolding { program: address(&spl_token::ID), owner: address(&key(20)), delegate: None };
    DonateToken::new(
        Wallet { key: address(&donor), lamports: 5 },
        RecordAccount { key: address(&record), record: None },
        address(&key(10)),
        address(&key(24)),
        address(&key(25)),
        address(&system),
        TokenAccount { holding, info: infos[0].clone() },
        infos[1].clone(),
        Authority { key: address(&key(20)), info: infos[2].clone() },
        infos[3].clone(),
    )
    .is_some()
}

#[test]
fn accounts_of_a_token_donation_are_valid_together_or_not_at_all() {
    let system = Pubkey::new_from_array([0; 32]);
    assert!(together(key(1), key(2), system));
    assert!(!together(key(1), key(1), system));
    assert!(!together(key(1), key(2), key(3)));
    assert!(!together(key(1), key(2), spl_token::ID));
}

#[test]
fn token_holding_recognizes_its_owner_and_its_delegate_only() {
    let holding = TokenHolding {
        program: address(&spl_token::ID),
        owner: address(&key(1)),
        delegate: Some(address(&key(2))),
    };
    assert!(holding.recognizes(address(&key(1))));
    assert!(holding.recognizes(address(&key(2))));
    assert!(!holding.recognizes(address(&key(3))));
    let elsewhere = TokenHolding { program: address(&key(9)), ..holding };
    assert!(!elsewhere.recognizes(address(&key(1))));
    let alone = TokenHolding { delegate: None, ..holding };
    assert!(!alone.recognizes(address(&key(2))));
}
