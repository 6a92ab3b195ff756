use vstd::prelude::*;

use crate::bits::{bit, lemma_ones_agree, lemma_ones_flip, lemma_rev8_involutive, ones, popcount};
use crate::codec::{
    decode_spec,
    encode_spec,
    label_code,
    pack,
    parity_ok,
    with_parity,
    MAX_DATA,
};
use crate::error::ArincError;
use crate::label::{is_known_code, Label};
use crate::ssm::Ssm;
use crate::word::ArincWord;

verus! {

/// Setting the parity bit of a body whose bit 31 is clear gives odd parity.
proof fn lemma_with_parity_odd(body: u32)
    requires
        body < 0x8000_0000,
    ensures
        parity_ok(with_parity(body)),
{
    assert(body & 0x7FFF_FFFF == body) by (bit_vector)
        requires
            body < 0x8000_0000,
    ;
    let top = body | 0x8000_0000;
    assert(forall|i: u32| i < 31 ==> #[trigger] bit(top, i) == bit(body, i)) by (bit_vector)
        requires
            top == body | 0x8000_0000,
    ;
    assert(bit(top, 31) && !bit(body, 31)) by (bit_vector)
        requires
            top == body | 0x8000_0000,
            body < 0x8000_0000,
    ;
    lemma_ones_agree(top, body, 31);
    assert(popcount(top) == ones(top, 31) + 1);
    assert(popcount(body) == ones(body, 31));
}

/// Encoding valid fields and decoding the word gives back the same SDI, data
/// and status, and the label that the label code resolves to.
pub proof fn law_round_trip(label: u8, sdi: u8, data: u32, ssm: u8)
    requires
        sdi <= 3,
        data <= MAX_DATA,
        ssm <= 3,
    ensures
        encode_spec(label, sdi, data, ssm) is Ok,
        decode_spec(encode_spec(label, sdi, data, ssm)->Ok_0) == Ok::<ArincWord, ArincError>(
            ArincWord {
                label: Label::from_code(label),
                sdi,
                data,
                ssm: Ssm::from_code(ssm),
            },
        ),
{
    let body = pack(label, sdi, data, ssm);
    let w = with_parity(body);
    let r = crate::bits::rev8(label);
    assert(body < 0x8000_0000) by (bit_vector)
        requires
            body == (r as u32) | ((sdi as u32) << 8) | (data << 10) | ((ssm as u32) << 29),
            sdi <= 3,
            data <= 0x7FFFF,
            ssm <= 3,
    ;
    lemma_with_parity_odd(body);
    assert(((w & 0xFF) as u8) == r && ((w >> 8) & 0x3) as u8 == sdi && (w >> 10) & 0x7FFFF == data
        && ((w >> 29) & 0x3) as u8 == ssm) by (bit_vector)
        requires
            body == (r as u32) | ((sdi as u32) << 8) | (data << 10) | ((ssm as u32) << 29),
            w == body || w == body | 0x8000_0000,
            sdi <= 3,
            data <= 0x7FFFF,
            ssm <= 3,
    ;
    lemma_rev8_involutive(label);
    assert(label_code(w) == label);
}

/// Every word that encoding produces has odd parity.
pub proof fn law_encoded_parity_odd(label: u8, sdi: u8, data: u32, ssm: u8)
    requires
        encode_spec(label, sdi, data, ssm) is Ok,
    ensures
        parity_ok(encode_spec(label, sdi, data, ssm)->Ok_0),
{
    law_round_trip(label, sdi, data, ssm);
}

/// Flipping any single bit of a word with odd parity makes decoding fail with a
/// parity mismatch.
pub proof fn law_single_bit_flip_detected(word: u32, k: u32)
    requires
        parity_ok(word),
        k < 32,
    ensures
        decode_spec(word ^ (1u32 << k)) == Err::<ArincWord, ArincError>(ArincError::ParityMismatch),
{
    lemma_ones_flip(word, k, 32);
}

/// Without normal operation a word yields no BNR reading, no date and no time,
/// whatever its data field holds.
pub proof fn law_status_gates_values(w: ArincWord)
    requires
        w.ssm != Ssm::NormalOperation,
    ensures
        w.bnr_spec() is None,
        w.date_text() is None,
        w.time_text() is None,
{
}

/// A word with odd parity whose label code is not a known one decodes to the
/// unknown label carrying that code, never to an error.
pub proof fn law_unknown_label_kept(word: u32)
    requires
        parity_ok(word),
        !is_known_code(label_code(word)),
    ensures
        decode_spec(word) is Ok,
        decode_spec(word)->Ok_0.label == Label::Unknown(label_code(word)),
{
}

} // verus!
