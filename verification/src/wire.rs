use crate::address::Address;
use vstd::prelude::*;
use vstd::utf8::{encode_utf8, valid_utf8};

verus! {

/// The `width` low bytes of `value`, the lowest first.
pub open spec fn le_bytes(value: nat, width: nat) -> Seq<u8>
    decreases width,
{
    if width == 0 {
        Seq::empty()
    } else {
        seq![(value % 256) as u8] + le_bytes(value / 256, (width - 1) as nat)
    }
}

/// The number that these bytes spell, the lowest byte first.
pub open spec fn le_value(bytes: Seq<u8>) -> nat
    decreases bytes.len(),
{
    if bytes.len() == 0 {
        0
    } else {
        bytes[0] as nat + 256 * le_value(bytes.drop_first())
    }
}

/// How many numbers `width` bytes can spell.
pub open spec fn capacity(width: nat) -> nat
    decreases width,
{
    if width == 0 {
        1
    } else {
        256 * capacity((width - 1) as nat)
    }
}

/// A 64-bit signed number as the unsigned number with the same bits.
pub open spec fn twos_complement(value: i64) -> nat {
    if value >= 0 {
        value as nat
    } else {
        (value + 0x1_0000_0000_0000_0000) as nat
    }
}

/// How many numbers four bytes and eight bytes can spell.
pub proof fn lemma_capacity()
    ensures
        capacity(4) == 0x1_0000_0000,
        capacity(8) == 0x1_0000_0000_0000_0000,
{
    reveal_with_fuel(capacity, 9);
}

/// More bytes spell no fewer numbers.
pub proof fn lemma_capacity_grows(narrow: nat, wide: nat)
    requires
        narrow <= wide,
    ensures
        0 < capacity(narrow) <= capacity(wide),
    decreases wide,
{
    if narrow < wide {
        lemma_capacity_grows(narrow, (wide - 1) as nat);
    } else if wide > 0 {
        lemma_capacity_grows((narrow - 1) as nat, (wide - 1) as nat);
    }
}

/// A number in `width` bytes takes `width` bytes.
pub proof fn lemma_le_bytes_len(value: nat, width: nat)
    ensures
        le_bytes(value, width).len() == width,
    decreases width,
{
    if width > 0 {
        lemma_le_bytes_len(value / 256, (width - 1) as nat);
    }
}

/// Bytes spell a number below the capacity of their count.
pub proof fn lemma_le_value_bound(bytes: Seq<u8>)
    ensures
        le_value(bytes) < capacity(bytes.len()),
    decreases bytes.len(),
{
    if bytes.len() > 0 {
        lemma_le_value_bound(bytes.drop_first());
    }
}

/// The bytes of a number that fits spell that number.
pub proof fn lemma_le_value_of_bytes(value: nat, width: nat)
    requires
        value < capacity(width),
    ensures
        le_value(le_bytes(value, width)) == value,
    decreases width,
{
    if width > 0 {
        let rest = le_bytes(value / 256, (width - 1) as nat);
        lemma_le_value_of_bytes(value / 256, (width - 1) as nat);
        assert(le_bytes(value, width).drop_first() =~= rest);
    }
}

/// A number is spelt by no bytes but those it was read from.
pub proof fn lemma_le_bytes_of_value(bytes: Seq<u8>)
    ensures
        le_bytes(le_value(bytes), bytes.len()) == bytes,
    decreases bytes.len(),
{
    if bytes.len() > 0 {
        let rest = bytes.drop_first();
        lemma_le_bytes_of_value(rest);
        assert(le_value(bytes) % 256 == bytes[0] as nat);
        assert(le_value(bytes) / 256 == le_value(rest));
        assert(le_bytes(le_value(bytes), bytes.len()) =~= bytes);
    }
}

/// Reads the number that `width` bytes of `data` spell, from `start` on.
pub fn read_le(data: &[u8], start: usize, width: usize) -> (value: u64)
    requires
        width <= 8,
        start + width <= data.len(),
    ensures
        value == le_value(data@.subrange(start as int, start + width)),
{
    let mut value: u64 = 0;
    let mut left: usize = width;
    while left > 0
        invariant
            left <= width <= 8,
            start + width <= data.len(),
            value == le_value(data@.subrange(start + left, start + width)),
            value < capacity((width - left) as nat),
        decreases left,
    {
        left -= 1;
        let byte = data[start + left];
        proof {
            let now = data@.subrange(start + left, start + width);
            assert(now.drop_first() =~= data@.subrange(start + left + 1, start + width));
            assert(now[0] == byte);
            lemma_capacity();
            lemma_capacity_grows((width - left) as nat, 8);
            assert(capacity((width - left) as nat) == 256 * capacity((width - left - 1) as nat));
        }
        value = value * 256 + byte as u64;
    }
    value
}

/// Appends the `width` low bytes of `value`, the lowest first.
pub fn push_le(out: &mut Vec<u8>, value: u64, width: usize)
    requires
        width <= 8,
    ensures
        final(out)@ == old(out)@ + le_bytes(value as nat, width as nat),
{
    let mut rest: u64 = value;
    let mut done: usize = 0;
    while done < width
        invariant
            done <= width,
            out@ + le_bytes(rest as nat, (width - done) as nat) == old(out)@ + le_bytes(
                value as nat,
                width as nat,
            ),
        decreases width - done,
    {
        proof {
            let ahead = le_bytes(rest as nat, (width - done) as nat);
            let after = le_bytes((rest / 256) as nat, (width - done - 1) as nat);
            assert(ahead == seq![(rest % 256) as u8] + after);
            assert(out@.push((rest % 256) as u8) + after =~= out@ + ahead);
        }
        out.push((rest % 256) as u8);
        rest = rest / 256;
        done += 1;
    }
    assert(le_bytes(rest as nat, 0) =~= Seq::<u8>::empty());
    assert(out@ + Seq::<u8>::empty() =~= out@);
}

/// Turns bytes into the text that they are in UTF-8, by `String::from_utf8`, which gives back
/// a string of these very bytes, or fails where they are no UTF-8.
#[verifier::external_body]
pub(crate) fn string_from_utf8(bytes: Vec<u8>) -> (text: Option<String>)
    ensures
        match text {
            Some(text) => encode_utf8(text@) == bytes@,
            None => !valid_utf8(bytes@),
        },
{
    String::from_utf8(bytes).ok()
}

/// A text as the count of its UTF-8 bytes, in four bytes, and then those bytes.
pub open spec fn text_encoding(text: Seq<char>) -> Seq<u8> {
    le_bytes(encode_utf8(text).len(), 4) + encode_utf8(text)
}

/// Whether the count of the text's bytes fits into four bytes.
pub open spec fn text_encodable(text: Seq<char>) -> bool {
    encode_utf8(text).len() <= u32::MAX
}

/// Whether the encoding of `text` stands in `data` from `start` on.
pub open spec fn text_at(data: Seq<u8>, start: int, text: Seq<char>) -> bool {
    &&& text_encodable(text)
    &&& 0 <= start
    &&& start + 4 + encode_utf8(text).len() <= data.len()
    &&& data.subrange(start, start + 4 + encode_utf8(text).len()) == text_encoding(text)
}

/// Where a text stands, its count and its bytes can be read off.
pub proof fn lemma_text_at(data: Seq<u8>, start: int, text: Seq<char>)
    requires
        text_at(data, start, text),
    ensures
        le_value(data.subrange(start, start + 4)) == encode_utf8(text).len(),
        data.subrange(start + 4, start + 4 + encode_utf8(text).len()) == encode_utf8(text),
{
    let bytes = encode_utf8(text);
    let count = le_bytes(bytes.len(), 4);
    let whole = data.subrange(start, start + 4 + bytes.len());
    lemma_le_bytes_len(bytes.len(), 4);
    lemma_capacity();
    lemma_le_value_of_bytes(bytes.len(), 4);
    assert(data.subrange(start, start + 4) =~= whole.subrange(0, 4));
    assert(whole.subrange(0, 4) =~= count);
    assert(data.subrange(start + 4, start + 4 + bytes.len()) =~= whole.subrange(4, 4 + bytes.len() as int));
    assert(whole.subrange(4, 4 + bytes.len() as int) =~= bytes);
}

/// At one place stands at most one text.
pub proof fn lemma_text_at_is_unambiguous(data: Seq<u8>, start: int, text: Seq<char>, other: Seq<char>)
    requires
        text_at(data, start, text),
        text_at(data, start, other),
    ensures
        text == other,
{
    lemma_text_at(data, start, text);
    lemma_text_at(data, start, other);
    vstd::utf8::encode_utf8_decode_utf8(text);
    vstd::utf8::encode_utf8_decode_utf8(other);
}

/// Reads the text that stands in `data` from `start` on, and says where it ends.
pub fn read_text(data: &[u8], start: usize) -> (read: Option<(String, usize)>)
    requires
        start <= data.len(),
    ensures
        match read {
            Some((text, end)) => {
                &&& text_at(data@, start as int, text@)
                &&& end == start + 4 + encode_utf8(text@).len()
            },
            None => forall|text: Seq<char>| !text_at(data@, start as int, text),
        },
{
    if data.len() - start < 4 {
        return None;
    }
    let count = read_le(data, start, 4);
    proof {
        lemma_le_value_bound(data@.subrange(start as int, start + 4));
        lemma_capacity();
        assert forall|text: Seq<char>| text_at(data@, start as int, text) implies encode_utf8(text).len()
            == count by {
            lemma_text_at(data@, start as int, text);
        }
    }
    let left: u64 = (data.len() - start - 4) as u64;
    if left < count {
        return None;
    }
    let count = count as usize;
    let bytes = vstd::slice::slice_to_vec(vstd::slice::slice_subrange(data, start + 4, start + 4 + count));
    proof {
        assert forall|text: Seq<char>| text_at(data@, start as int, text) implies bytes@ == encode_utf8(
            text,
        ) by {
            lemma_text_at(data@, start as int, text);
        }
    }
    match string_from_utf8(bytes) {
        Some(text) => {
            proof {
                let whole = data@.subrange(start as int, start + 4 + count);
                lemma_le_bytes_of_value(data@.subrange(start as int, start + 4));
                assert(whole =~= data@.subrange(start as int, start + 4) + bytes@);
            }
            Some((text, start + 4 + count))
        },
        None => {
            proof {
                assert forall|text: Seq<char>| !text_at(data@, start as int, text) by {
                    if text_at(data@, start as int, text) {
                        vstd::utf8::encode_utf8_valid_utf8(text);
                    }
                }
            }
            None
        },
    }
}

/// Appends the encoding of `text`.
pub fn push_text(out: &mut Vec<u8>, text: &str)
    requires
        text_encodable(text@),
    ensures
        final(out)@ == old(out)@ + text_encoding(text@),
{
    let bytes = text.as_bytes();
    push_le(out, bytes.len() as u64, 4);
    let ghost counted = out@;
    out.extend_from_slice(bytes);
    assert(out@ =~= counted + bytes@);
    assert(out@ =~= old(out)@ + text_encoding(text@));
}

/// Reads the address that stands in `data` from `start` on.
pub fn read_address(data: &[u8], start: usize) -> (address: Address)
    requires
        start + 32 <= data.len(),
    ensures
        address@ == data@.subrange(start as int, start + 32),
{
    let mut bytes = [0u8; 32];
    let mut at: usize = 0;
    while at < 32
        invariant
            at <= 32,
            start + 32 <= data.len(),
            forall|i: int| 0 <= i < at ==> bytes@[i] == data@[start + i],
        decreases 32 - at,
    {
        bytes[at] = data[start + at];
        at += 1;
    }
    assert(bytes@ =~= data@.subrange(start as int, start + 32));
    Address { bytes }
}

/// Appends the bytes of an address.
pub fn push_address(out: &mut Vec<u8>, address: &Address)
    ensures
        final(out)@ == old(out)@ + address@,
{
    out.extend_from_slice(address.bytes.as_slice());
    assert(out@ =~= old(out)@ + address@);
}

/// The unsigned number with the bits of a signed one.
pub fn to_bits(value: i64) -> (bits: u64)
    ensures
        bits == twos_complement(value),
{
    if value >= 0 {
        value as u64
    } else {
        (value - i64::MIN) as u64 + 0x8000_0000_0000_0000u64
    }
}

/// The signed number with the bits of an unsigned one.
pub fn from_bits(bits: u64) -> (value: i64)
    ensures
        twos_complement(value) == bits,
{
    if bits < 0x8000_0000_0000_0000u64 {
        bits as i64
    } else {
        (bits - 0x8000_0000_0000_0000u64) as i64 + i64::MIN
    }
}

/// Whether `data` begins with `prefix`.
pub fn starts_with(data: &[u8], prefix: &[u8]) -> (begins: bool)
    ensures
        begins == (prefix@.len() <= data@.len() && data@.subrange(0, prefix@.len() as int) == prefix@),
{
    if data.len() < prefix.len() {
        return false;
    }
    let mut at: usize = 0;
    while at < prefix.len()
        invariant
            at <= prefix.len() <= data.len(),
            forall|i: int| 0 <= i < at ==> data@[i] == prefix@[i],
        decreases prefix.len() - at,
    {
        if data[at] != prefix[at] {
            assert(data@.subrange(0, prefix@.len() as int)[at as int] != prefix@[at as int]);
            return false;
        }
        at += 1;
    }
    assert(data@.subrange(0, prefix@.len() as int) =~= prefix@);
    true
}

} // verus!
