use vstd::prelude::*;

verus! {

/// Errors reported by the codec and the label parser.
#[derive(Debug, Clone, Copy, PartialEq, Eq, Structural)]
pub enum ArincError {
    /// The data field exceeds 19 bits (largest allowed value: 524287).
    DataOverflow(u32),
    /// The Source/Destination Identifier is outside 0–3.
    InvalidSdi(u8),
    /// The Sign/Status Matrix is outside 0–3.
    InvalidSsm(u8),
    /// The word does not have odd parity.
    ParityMismatch,
    /// The label string is not a base-8 numeral that fits in a byte.
    InvalidOctalLabel,
}

} // verus!
