use anchor_lang::solana_program::pubkey::Pubkey;
use vstd::prelude::*;

verus! {

broadcast use vstd::array::group_array_axioms;

/// The address of an account or a program: 32 bytes.
#[derive(Clone, Copy, Debug)]
pub struct Address {
    pub bytes: [u8; 32],
}

impl View for Address {
    type V = Seq<u8>;

    open spec fn view(&self) -> Seq<u8> {
        self.bytes@
    }
}

impl PartialEq for Address {
    fn eq(&self, other: &Self) -> (same: bool) {
        let mut i: usize = 0;
        while i < 32
            invariant
                i <= 32,
                forall|j: int| 0 <= j < i ==> self.bytes[j] == other.bytes[j],
            decreases 32 - i,
        {
            if self.bytes[i] != other.bytes[i] {
                return false;
            }
            i += 1;
        }
        assert(self.bytes =~= other.bytes);
        true
    }
}

impl Eq for Address {

}

impl vstd::std_specs::cmp::PartialEqSpecImpl for Address {
    open spec fn obeys_eq_spec() -> bool {
        true
    }

    open spec fn eq_spec(&self, other: &Self) -> bool {
        *self == *other
    }
}

/// Two addresses with the same bytes are the same address.
pub proof fn lemma_address_view_injective(a: Address, b: Address)
    ensures
        a@ == b@ <==> a == b,
        a@.len() == 32,
{
    if a@ == b@ {
        assert(a.bytes =~= b.bytes);
    }
}

/// The namespace tag that opens the seeds of every record address.
pub const RECORD_SEED: [u8; 8] = [100, 111, 110, 97, 116, 105, 111, 110];

/// What `Pubkey::try_find_program_address` returns for these seeds and this program: the
/// derived address with its bump, or nothing where the seeds admit no address.
pub uninterp spec fn program_address(seeds: Seq<Seq<u8>>, program_id: Seq<u8>) -> Option<(Seq<u8>, u8)>;

/// Calls `Pubkey::try_find_program_address` with the two seeds in this order. The call hashes
/// the seeds, the program id and a bump, counting the bump down from 255 until the hash is no
/// curve point; it reads nothing else, so its result is `program_address` of the arguments.
#[verifier::external_body]
fn try_find_program_address(tag: &[u8], identifier: &[u8], program_id: &Address) -> (found: Option<
    (Address, u8),
>)
    ensures
        match found {
            Some((address, bump)) => program_address(seq![tag@, identifier@], program_id@) == Some(
                (address@, bump),
            ),
            None => program_address(seq![tag@, identifier@], program_id@) is None,
        },
{
    let program = Pubkey::new_from_array(program_id.bytes);
    match Pubkey::try_find_program_address(&[tag, identifier], &program) {
        Some((key, bump)) => Some((Address { bytes: key.to_bytes() }, bump)),
        None => None,
    }
}

/// The bytes of the system program's address.
pub const SYSTEM_PROGRAM_BYTES: [u8; 32] = [
    0, 0, 0, 0, 0, 0, 0, 0, 0, 0, 0, 0, 0, 0, 0, 0,
    0, 0, 0, 0, 0, 0, 0, 0, 0, 0, 0, 0, 0, 0, 0, 0,
];

/// What `system_program_id` returns.
pub open spec fn spec_system_program_id() -> Address {
    Address { bytes: SYSTEM_PROGRAM_BYTES }
}

/// The address of the system program, which creates and funds accounts.
#[verifier::when_used_as_spec(spec_system_program_id)]
pub fn system_program_id() -> (id: Address)
    ensures
        id == spec_system_program_id(),
{
    Address { bytes: SYSTEM_PROGRAM_BYTES }
}

/// The bytes of the token program's address.
pub const TOKEN_PROGRAM_BYTES: [u8; 32] = [
    6, 221, 246, 225, 215, 101, 161, 147, 217, 203, 225, 70, 206, 235, 121, 172,
    28, 180, 133, 237, 95, 91, 55, 145, 58, 140, 245, 133, 126, 255, 0, 169,
];

/// What `token_program_id` returns.
pub open spec fn spec_token_program_id() -> Address {
    Address { bytes: TOKEN_PROGRAM_BYTES }
}

/// The address of the token program, which keeps the token accounts and moves tokens.
#[verifier::when_used_as_spec(spec_token_program_id)]
pub fn token_program_id() -> (id: Address)
    ensures
        id == spec_token_program_id(),
{
    Address { bytes: TOKEN_PROGRAM_BYTES }
}

/// The bytes of this program's own address.
pub const PROGRAM_BYTES: [u8; 32] = [
    58, 131, 112, 123, 147, 190, 99, 62, 117, 252, 167, 228, 173, 86, 54, 44,
    16, 32, 225, 109, 215, 255, 45, 159, 253, 32, 75, 94, 187, 103, 86, 183,
];

/// What `program_id` returns.
pub open spec fn spec_program_id() -> Address {
    Address { bytes: PROGRAM_BYTES }
}

/// The address under which this program is loaded.
#[verifier::when_used_as_spec(spec_program_id)]
pub fn program_id() -> (id: Address)
    ensures
        id == spec_program_id(),
{
    Address { bytes: PROGRAM_BYTES }
}

/// The record address of an identifier under a program, with its bump.
pub open spec fn record_address(program_id: Address, identifier: Seq<char>) -> Option<(Seq<u8>, u8)> {
    program_address(seq![RECORD_SEED@, vstd::utf8::encode_utf8(identifier)], program_id@)
}

/// Whether `key` is the address derived for `identifier` under `program_id`.
pub open spec fn is_record_address(program_id: Address, identifier: Seq<char>, key: Address) -> bool {
    record_address(program_id, identifier) matches Some((bytes, _)) && bytes == key@
}

/// Whether `found` is what the derivation gives for `identifier` under `program_id`: the
/// record address and its bump, or nothing where there is no such address.
pub open spec fn is_derived(program_id: Address, identifier: Seq<char>, found: Option<(Address, u8)>) -> bool {
    match found {
        Some((address, bump)) => record_address(program_id, identifier) == Some((address@, bump)),
        None => record_address(program_id, identifier) is None,
    }
}

/// The derivation depends on the program and the identifier alone: whenever it is made for
/// the same two, it gives the same address and the same bump, or fails both times.
pub proof fn derivation_is_deterministic(
    program_id: Address,
    identifier: Seq<char>,
    first: Option<(Address, u8)>,
    second: Option<(Address, u8)>,
)
    requires
        is_derived(program_id, identifier, first),
        is_derived(program_id, identifier, second),
    ensures
        first == second,
{
    if let (Some((address, _)), Some((other, _))) = (first, second) {
        lemma_address_view_injective(address, other);
    }
}

/// Derives the address at which the record of `dog_id` is kept, and the bump that goes with
/// it. Anyone who knows the program and the identifier can derive the same.
pub fn find_record_address(program_id: &Address, dog_id: &str) -> (found: Option<(Address, u8)>)
    ensures
        is_derived(*program_id, dog_id@, found),
{
    let tag = RECORD_SEED;
    try_find_program_address(tag.as_slice(), dog_id.as_bytes(), program_id)
}

} // verus!
