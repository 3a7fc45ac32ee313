use crate::address::{lemma_address_view_injective, Address};
use crate::wire::{
    from_bits, le_bytes, le_value, lemma_capacity, lemma_le_bytes_len, lemma_le_bytes_of_value,
    lemma_le_value_of_bytes, lemma_text_at, lemma_text_at_is_unambiguous, push_address, push_le, push_text,
    read_address, read_le, read_text, starts_with, text_at, text_encoding, to_bits, twos_complement,
};
use vstd::prelude::*;
use vstd::utf8::encode_utf8;

verus! {

/// The bytes set aside for one stored record.
pub const RECORD_SPACE: usize = 103;

/// The bytes that a stored record takes beside those of its identifier, where it has a
/// mint: the tag in 8, the count of the identifier's bytes in 4, the donor in 32, the amount
/// in 8, the mint in 1 and 32, and the time in 8.
pub const RECORD_FIXED_LEN: usize = 93;

/// The longest identifier, in bytes, that a stored record has room for, mint or none.
pub const MAX_IDENTIFIER_LEN: usize = RECORD_SPACE - RECORD_FIXED_LEN;

/// One donation, kept under its identifier. It is written once and never changed.
#[derive(Clone, Debug)]
pub struct DonationRecord {
    pub dog_id: String,
    pub donor: Address,
    pub amount: u64,
    pub token_mint: Option<Address>,
    pub timestamp: i64,
}

/// The bytes that a record with this identifier takes when stored with a mint, which is
/// the most that it can take.
pub open spec fn record_space(identifier: Seq<char>) -> nat {
    RECORD_FIXED_LEN as nat + encode_utf8(identifier).len()
}

/// Whether a record with this identifier fits into the space set aside for it.
pub fn identifier_fits(dog_id: &str) -> (fits: bool)
    ensures
        fits == (record_space(dog_id@) <= RECORD_SPACE),
{
    dog_id.as_bytes().len() <= MAX_IDENTIFIER_LEN
}

/// The eight bytes that open every stored record: the first eight of the SHA-256 hash of
/// `account:DonationRecord`.
pub const RECORD_TAG: [u8; 8] = [219, 64, 180, 111, 72, 70, 71, 0];

/// The mint of a record as stored: one byte that says whether there is one, and then it.
pub open spec fn mint_encoding(token_mint: Option<Address>) -> Seq<u8> {
    match token_mint {
        None => seq![0u8],
        Some(mint) => seq![1u8] + mint@,
    }
}

/// That many zero bytes.
pub open spec fn zeros(count: nat) -> Seq<u8> {
    Seq::new(count, |i: int| 0u8)
}

/// Whether `data` holds nothing but zero bytes from `start` on.
pub fn is_zero_from(data: &[u8], start: usize) -> (zero: bool)
    requires
        start <= data.len(),
    ensures
        zero == (forall|i: int| start <= i < data@.len() ==> data@[i] == 0),
{
    let mut at: usize = start;
    while at < data.len()
        invariant
            start <= at <= data.len(),
            forall|i: int| start <= i < at ==> data@[i] == 0,
        decreases data.len() - at,
    {
        if data[at] != 0 {
            return false;
        }
        at += 1;
    }
    true
}

impl DonationRecord {
    /// Whether the record fits into the space set aside for it.
    pub open spec fn fits(self) -> bool {
        record_space(self.dog_id@) <= RECORD_SPACE
    }

    /// The fields as stored: the tag, the identifier as a text, the donor, the amount in
    /// eight bytes, the mint, and the time in eight bytes, each number lowest byte first.
    pub open spec fn fields_encoding(self) -> Seq<u8> {
        RECORD_TAG@ + text_encoding(self.dog_id@) + self.donor@ + le_bytes(self.amount as nat, 8)
            + mint_encoding(self.token_mint) + le_bytes(twos_complement(self.timestamp), 8)
    }

    /// The record as stored: its fields, and zero bytes up to the space set aside.
    pub open spec fn encoding(self) -> Seq<u8> {
        self.fields_encoding() + zeros((RECORD_SPACE - self.fields_encoding().len()) as nat)
    }

    /// Where the stored fields begin and end: `data` has the length of a stored record and
    /// holds each field of `self` at its place, with zero bytes after the last.
    pub open spec fn is_spelt_by(self, data: Seq<u8>) -> bool {
        let count = encode_utf8(self.dog_id@).len() as int;
        let time_at = match self.token_mint {
            None => 53 + count,
            Some(_) => 85 + count,
        };
        &&& self.fits()
        &&& data.len() == RECORD_SPACE
        &&& data.subrange(0, 8) == RECORD_TAG@
        &&& text_at(data, 8, self.dog_id@)
        &&& data.subrange(12 + count, 44 + count) == self.donor@
        &&& le_value(data.subrange(44 + count, 52 + count)) == self.amount
        &&& match self.token_mint {
            None => data[52 + count] == 0,
            Some(mint) => data[52 + count] == 1 && data.subrange(53 + count, 85 + count) == mint@,
        }
        &&& le_value(data.subrange(time_at, time_at + 8)) == twos_complement(self.timestamp)
        &&& forall|i: int| time_at + 8 <= i < data.len() ==> data[i] == 0
    }

    /// A stored record holds each field at its place.
    pub proof fn lemma_encoding_spells(self)
        requires
            self.fits(),
        ensures
            self.is_spelt_by(self.encoding()),
    {
        let data = self.encoding();
        let fields = self.fields_encoding();
        let count = encode_utf8(self.dog_id@).len() as int;
        let mint = mint_encoding(self.token_mint);
        let time_at = 52 + count + mint.len();
        lemma_le_bytes_len(count as nat, 4);
        lemma_le_bytes_len(self.amount as nat, 8);
        lemma_le_bytes_len(twos_complement(self.timestamp), 8);
        lemma_capacity();
        lemma_le_value_of_bytes(self.amount as nat, 8);
        lemma_le_value_of_bytes(twos_complement(self.timestamp), 8);
        assert(RECORD_TAG@.len() == 8);
        assert(self.donor@.len() == 32);
        assert(fields.len() == time_at + 8);
        assert(data.subrange(0, 8) =~= RECORD_TAG@);
        assert(data.subrange(8, 12 + count) =~= text_encoding(self.dog_id@));
        assert(data.subrange(12 + count, 44 + count) =~= self.donor@);
        assert(data.subrange(44 + count, 52 + count) =~= le_bytes(self.amount as nat, 8));
        assert(data.subrange(52 + count, time_at) =~= mint);
        assert(data[52 + count] == mint[0]);
        match self.token_mint {
            None => {},
            Some(address) => {
                assert(data.subrange(53 + count, 85 + count) =~= address@);
            },
        }
        assert(data.subrange(time_at, time_at + 8) =~= le_bytes(twos_complement(self.timestamp), 8));
    }

    /// Data that holds each field of a record at its place is that record as stored.
    pub proof fn lemma_spelt_is_encoding(self, data: Seq<u8>)
        requires
            self.is_spelt_by(data),
        ensures
            data == self.encoding(),
    {
        let count = encode_utf8(self.dog_id@).len() as int;
        let mint = mint_encoding(self.token_mint);
        let time_at = 52 + count + mint.len();
        lemma_text_at(data, 8, self.dog_id@);
        lemma_le_bytes_len(count as nat, 4);
        lemma_le_bytes_len(self.amount as nat, 8);
        lemma_le_bytes_len(twos_complement(self.timestamp), 8);
        lemma_le_bytes_of_value(data.subrange(44 + count, 52 + count));
        lemma_le_bytes_of_value(data.subrange(time_at, time_at + 8));
        assert(data.subrange(8, 12 + count) == text_encoding(self.dog_id@));
        assert(data.subrange(52 + count, time_at) =~= mint) by {
            match self.token_mint {
                None => {},
                Some(address) => {
                    assert(data.subrange(52 + count, time_at).subrange(1, 33) =~= data.subrange(
                        53 + count,
                        85 + count,
                    ));
                },
            }
        }
        let fields = data.subrange(0, 8) + data.subrange(8, 12 + count) + data.subrange(12 + count, 44 + count)
            + data.subrange(44 + count, 52 + count) + data.subrange(52 + count, time_at) + data.subrange(
            time_at,
            time_at + 8,
        );
        assert(fields == self.fields_encoding());
        assert(data =~= fields + zeros((RECORD_SPACE - fields.len()) as nat));
    }

    /// No data is two records as stored.
    pub proof fn lemma_spelling_is_unambiguous(self, other: DonationRecord, data: Seq<u8>)
        requires
            self.is_spelt_by(data),
            other.is_spelt_by(data),
        ensures
            self.dog_id@ == other.dog_id@,
            self.donor == other.donor,
            self.amount == other.amount,
            self.token_mint == other.token_mint,
            self.timestamp == other.timestamp,
    {
        lemma_text_at_is_unambiguous(data, 8, self.dog_id@, other.dog_id@);
        lemma_address_view_injective(self.donor, other.donor);
        match (self.token_mint, other.token_mint) {
            (Some(mine), Some(yours)) => {
                lemma_address_view_injective(mine, yours);
            },
            _ => {},
        }
    }

    /// Two records that are stored as the same bytes are the same record.
    pub proof fn encoding_is_unambiguous(self, other: DonationRecord)
        requires
            self.fits(),
            other.fits(),
            self.encoding() == other.encoding(),
        ensures
            self.dog_id@ == other.dog_id@,
            self.donor == other.donor,
            self.amount == other.amount,
            self.token_mint == other.token_mint,
            self.timestamp == other.timestamp,
    {
        self.lemma_encoding_spells();
        other.lemma_encoding_spells();
        self.lemma_spelling_is_unambiguous(other, self.encoding());
    }

    /// Writes the record as it is stored, if it fits into the space set aside for it.
    pub fn encode(&self) -> (data: Option<Vec<u8>>)
        ensures
            match data {
                Some(data) => self.fits() && data@ == self.encoding(),
                None => !self.fits(),
            },
    {
        if !identifier_fits(self.dog_id.as_str()) {
            return None;
        }
        let tag = RECORD_TAG;
        let mut data: Vec<u8> = Vec::new();
        data.extend_from_slice(tag.as_slice());
        assert(data@ =~= RECORD_TAG@);
        push_text(&mut data, self.dog_id.as_str());
        push_address(&mut data, &self.donor);
        push_le(&mut data, self.amount, 8);
        let ghost before_mint = data@;
        match self.token_mint {
            None => {
                data.push(0);
            },
            Some(mint) => {
                data.push(1);
                push_address(&mut data, &mint);
            },
        }
        assert(data@ =~= before_mint + mint_encoding(self.token_mint));
        push_le(&mut data, to_bits(self.timestamp), 8);
        proof {
            lemma_le_bytes_len(encode_utf8(self.dog_id@).len(), 4);
            lemma_le_bytes_len(self.amount as nat, 8);
            lemma_le_bytes_len(twos_complement(self.timestamp), 8);
        }
        let ghost fields = data@;
        assert(fields == self.fields_encoding());
        while data.len() < RECORD_SPACE
            invariant
                fields.len() <= data.len() <= RECORD_SPACE,
                data@ == fields + zeros((data.len() - fields.len()) as nat),
            decreases RECORD_SPACE - data.len(),
        {
            data.push(0);
            assert(data@ =~= fields + zeros((data.len() - fields.len()) as nat));
        }
        Some(data)
    }

    /// Reads a record as it is stored. Data that is no record as stored gives nothing.
    pub fn decode(data: &[u8]) -> (decoded: Option<DonationRecord>)
        ensures
            match decoded {
                Some(record) => record.fits() && data@ == record.encoding(),
                None => forall|record: DonationRecord| record.fits() ==> data@ != #[trigger] record.encoding(),
            },
    {
        proof {
            assert forall|record: DonationRecord|
                record.fits() && data@ == #[trigger] record.encoding() implies record.is_spelt_by(data@) by {
                record.lemma_encoding_spells();
            }
        }
        let tag = RECORD_TAG;
        if data.len() != RECORD_SPACE || !starts_with(data, tag.as_slice()) {
            return None;
        }
        let (dog_id, end) = match read_text(data, 8) {
            Some(read) => read,
            None => {
                return None;
            },
        };
        proof {
            assert forall|record: DonationRecord| record.is_spelt_by(data@) implies record.dog_id@
                == dog_id@ by {
                lemma_text_at_is_unambiguous(data@, 8, record.dog_id@, dog_id@);
            }
        }
        if !identifier_fits(dog_id.as_str()) {
            return None;
        }
        let donor = read_address(data, end);
        let amount = read_le(data, end + 32, 8);
        let flag = data[end + 40];
        let (token_mint, time_at) = if flag == 0 {
            (None, end + 41)
        } else if flag == 1 {
            (Some(read_address(data, end + 41)), end + 73)
        } else {
            return None;
        };
        let timestamp = from_bits(read_le(data, time_at, 8));
        if !is_zero_from(data, time_at + 8) {
            return None;
        }
        let record = DonationRecord { dog_id, donor, amount, token_mint, timestamp };
        proof {
            record.lemma_spelt_is_encoding(data@);
        }
        Some(record)
    }
}

} // verus!
