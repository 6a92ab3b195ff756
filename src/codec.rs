use vstd::prelude::*;

use crate::bits::{count_ones32, popcount, rev8, reverse_bits8};
use crate::error::ArincError;
use crate::label::Label;
use crate::ssm::Ssm;
use crate::word::ArincWord;

verus! {

/// Largest value of the 19-bit data field.
pub const MAX_DATA: u32 = 0x7FFFF;

/// The word's fields packed without the parity bit: reversed label in bits 0–7,
/// SDI in bits 8–9, data in bits 10–28, SSM in bits 29–30.
pub open spec fn pack(label: u8, sdi: u8, data: u32, ssm: u8) -> u32 {
    (rev8(label) as u32) | ((sdi as u32) << 8) | (data << 10) | ((ssm as u32) << 29)
}

/// `body` with bit 31 chosen so that the population count of bits 0–30 plus bit 31 is odd.
pub open spec fn with_parity(body: u32) -> u32 {
    if popcount(body & 0x7FFF_FFFF) % 2 == 0 {
        body | 0x8000_0000
    } else {
        body
    }
}

/// Whether a word has odd parity.
pub open spec fn parity_ok(word: u32) -> bool {
    popcount(word) % 2 == 1
}

/// The result of encoding the given fields; checks run in the order SDI, SSM, data.
pub open spec fn encode_spec(label: u8, sdi: u8, data: u32, ssm: u8) -> Result<u32, ArincError> {
    if sdi > 3 {
        Err(ArincError::InvalidSdi(sdi))
    } else if ssm > 3 {
        Err(ArincError::InvalidSsm(ssm))
    } else if data > MAX_DATA {
        Err(ArincError::DataOverflow(data))
    } else {
        Ok(with_parity(pack(label, sdi, data, ssm)))
    }
}

/// The decimal label code carried by a word (its low byte, bit-reversed).
pub open spec fn label_code(word: u32) -> u8 {
    rev8((word & 0xFF) as u8)
}

/// The SDI field of a word.
pub open spec fn sdi_field(word: u32) -> u8 {
    ((word >> 8) & 0x3) as u8
}

/// The data field of a word.
pub open spec fn data_field(word: u32) -> u32 {
    (word >> 10) & 0x7FFFF
}

/// The raw SSM field of a word.
pub open spec fn ssm_field(word: u32) -> u8 {
    ((word >> 29) & 0x3) as u8
}

/// The fields of a word, resolved to a label and a status.
pub open spec fn fields_of(word: u32) -> ArincWord {
    ArincWord {
        label: Label::from_code(label_code(word)),
        sdi: sdi_field(word),
        data: data_field(word),
        ssm: Ssm::from_code(ssm_field(word)),
    }
}

/// The result of decoding a word: a parity failure, or its fields.
pub open spec fn decode_spec(word: u32) -> Result<ArincWord, ArincError> {
    if parity_ok(word) {
        Ok(fields_of(word))
    } else {
        Err(ArincError::ParityMismatch)
    }
}

/// Encodes a word: validates the fields, reverses the label bits, packs the
/// fields and sets the parity bit so that the word has odd parity.
pub fn encode(label: u8, sdi: u8, data: u32, ssm: u8) -> (r: Result<u32, ArincError>)
    ensures
        r == encode_spec(label, sdi, data, ssm),
{
    if sdi > 3 {
        return Err(ArincError::InvalidSdi(sdi));
    }
    if ssm > 3 {
        return Err(ArincError::InvalidSsm(ssm));
    }
    if data > MAX_DATA {
        return Err(ArincError::DataOverflow(data));
    }
    let label_bits = reverse_bits8(label);
    let word: u32 = (label_bits as u32) | ((sdi as u32) << 8) | (data << 10) | ((ssm as u32) << 29);
    let ones = count_ones32(word & 0x7FFF_FFFF);
    if ones % 2 == 0 {
        Ok(word | 0x8000_0000)
    } else {
        Ok(word)
    }
}

/// Decodes a word: checks odd parity, then extracts and resolves the fields.
pub fn decode(word: u32) -> (r: Result<ArincWord, ArincError>)
    ensures
        r == decode_spec(word),
        r is Ok ==> r->Ok_0.wf(),
{
    if count_ones32(word) % 2 == 0 {
        return Err(ArincError::ParityMismatch);
    }
    let label = reverse_bits8((word & 0xFF) as u8);
    let sdi = ((word >> 8) & 0x3) as u8;
    let data = (word >> 10) & 0x7FFFF;
    let ssm_raw = ((word >> 29) & 0x3) as u8;
    assert(data <= 0x7FFFF && sdi <= 3) by (bit_vector)
        requires
            data == (word >> 10) & 0x7FFFF,
            sdi == ((word >> 8) & 0x3) as u8,
    ;
    Ok(ArincWord { label: Label::from_u8(label), sdi, data, ssm: Ssm::from_u8(ssm_raw) })
}

} // verus!
