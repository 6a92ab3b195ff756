use vstd::prelude::*;

use crate::error::ArincError;
use crate::text::{digit_char, digit_str};

verus! {

/// Parameter labels known to this library, with a fallback for any other code.
#[derive(Debug, Clone, Copy, PartialEq, Eq, Structural)]
pub enum Label {
    /// Ground Speed: octal 012, BNR, 0.125 knots per count.
    GroundSpeed,
    /// UTC Time: octal 150, BCD, hh:mm:ss.
    UtcTime,
    /// Pressure Altitude: octal 203, signed BNR, feet.
    PressureAltitude,
    /// Baro-Corrected Altitude: octal 204, signed BNR, feet.
    BaroCorrectedAlt,
    /// Mach: octal 205, BNR, 0.001 per count.
    Mach,
    /// True Airspeed: octal 210, BNR, knots.
    TrueAirspeed,
    /// Total Air Temperature: octal 211, signed BNR, 0.25 °C per count.
    Tat,
    /// Date: octal 260, BCD, dd-mm-yy.
    Date,
    /// Roll Angle: octal 324, signed BNR, 0.01° per count.
    RollAngle,
    /// Any other label, by its decimal code.
    Unknown(u8),
}

/// Whether a decimal label code names one of the known parameters.
pub open spec fn is_known_code(c: u8) -> bool {
    c == 10 || c == 104 || c == 131 || c == 132 || c == 133 || c == 136 || c == 137 || c == 176
        || c == 212
}

/// Whether a character is an octal digit.
pub open spec fn is_octal_digit(c: char) -> bool {
    '0' <= c && c <= '7'
}

/// The value of a string of octal digits, most significant first.
pub open spec fn octal_value(t: Seq<char>) -> int
    decreases t.len(),
{
    if t.len() == 0 {
        0
    } else {
        octal_value(t.drop_last()) * 8 + (t.last() as int - '0' as int)
    }
}

/// The byte that a base-8 numeral denotes: an optional `+`, then at least one
/// octal digit, with a value of at most 255. Anything else denotes none.
pub open spec fn octal_byte(s: Seq<char>) -> Option<u8> {
    let t = if s.len() > 0 && s[0] == '+' {
        s.drop_first()
    } else {
        s
    };
    if t.len() > 0 && (forall|i: int| 0 <= i < t.len() ==> is_octal_digit(#[trigger] t[i]))
        && octal_value(t) <= 255 {
        Some(octal_value(t) as u8)
    } else {
        None
    }
}

/// The three-digit, zero-padded octal text of a label code.
pub open spec fn octal_text(c: u8) -> Seq<char> {
    seq![digit_char(c as nat / 64), digit_char(c as nat / 8 % 8), digit_char(c as nat % 8)]
}

/// Relies on `u8::from_str_radix` with radix 8, which accepts an optional `+`
/// followed by one or more digits 0–7 whose value fits in a `u8`, and fails on
/// anything else.
#[verifier::external_body]
fn parse_octal_u8(s: &str) -> (r: Option<u8>)
    ensures
        r == octal_byte(s@),
{
    u8::from_str_radix(s, 8).ok()
}

impl Label {
    /// The decimal label code (after bit reversal on the wire).
    pub open spec fn code(self) -> u8 {
        match self {
            Label::GroundSpeed => 10,
            Label::UtcTime => 104,
            Label::PressureAltitude => 131,
            Label::BaroCorrectedAlt => 132,
            Label::Mach => 133,
            Label::TrueAirspeed => 136,
            Label::Tat => 137,
            Label::Date => 176,
            Label::RollAngle => 212,
            Label::Unknown(n) => n,
        }
    }

    /// The label that a decimal code resolves to.
    pub open spec fn from_code(c: u8) -> Label {
        match c {
            10 => Label::GroundSpeed,
            104 => Label::UtcTime,
            131 => Label::PressureAltitude,
            132 => Label::BaroCorrectedAlt,
            133 => Label::Mach,
            136 => Label::TrueAirspeed,
            137 => Label::Tat,
            176 => Label::Date,
            212 => Label::RollAngle,
            _ => Label::Unknown(c),
        }
    }

    /// Resolves a raw decimal label code (after bit reversal) to its label.
    pub fn from_u8(raw: u8) -> (r: Self)
        ensures
            r == Label::from_code(raw),
            r.code() == raw,
            (r is Unknown) == !is_known_code(raw),
    {
        match raw {
            10 => Label::GroundSpeed,
            104 => Label::UtcTime,
            131 => Label::PressureAltitude,
            132 => Label::BaroCorrectedAlt,
            133 => Label::Mach,
            136 => Label::TrueAirspeed,
            137 => Label::Tat,
            176 => Label::Date,
            212 => Label::RollAngle,
            _ => Label::Unknown(raw),
        }
    }

    /// Human-readable parameter name.
    pub open spec fn name_spec(self) -> Seq<char> {
        match self {
            Label::GroundSpeed => "Ground Speed"@,
            Label::UtcTime => "UTC Time"@,
            Label::PressureAltitude => "Pressure Altitude (1013.25 mb)"@,
            Label::BaroCorrectedAlt => "Baro-Corrected Altitude"@,
            Label::Mach => "Mach"@,
            Label::TrueAirspeed => "True Airspeed"@,
            Label::Tat => "Total Air Temperature (TAT)"@,
            Label::Date => "Date"@,
            Label::RollAngle => "Roll Angle"@,
            Label::Unknown(_) => "Unknown Label"@,
        }
    }

    /// Physical units of the parameter (empty if it has none).
    pub open spec fn units_spec(self) -> Seq<char> {
        match self {
            Label::GroundSpeed | Label::TrueAirspeed => "knots"@,
            Label::PressureAltitude | Label::BaroCorrectedAlt => "feet"@,
            Label::Tat => "°C"@,
            Label::RollAngle => "°"@,
            _ => ""@,
        }
    }

    /// Parses an octal label string (such as `"012"` or `"203"`) into its label.
    ///
    /// Fails with `InvalidOctalLabel` unless the string is a base-8 numeral whose
    /// value fits in a byte; any such value resolves, known or not.
    pub fn from_octal_str(s: &str) -> (r: Result<Self, ArincError>)
        ensures
            octal_byte(s@) is Some ==> r == Ok::<Label, ArincError>(
                Label::from_code(octal_byte(s@)->Some_0),
            ),
            octal_byte(s@) is None ==> r == Err::<Label, ArincError>(
                ArincError::InvalidOctalLabel,
            ),
    {
        match parse_octal_u8(s) {
            Some(decimal) => Ok(Self::from_u8(decimal)),
            None => Err(ArincError::InvalidOctalLabel),
        }
    }

    /// Raw decimal label code, as taken by `encode`.
    pub fn raw(&self) -> (r: u8)
        ensures
            r == self.code(),
    {
        match self {
            Label::GroundSpeed => 10,
            Label::UtcTime => 104,
            Label::PressureAltitude => 131,
            Label::BaroCorrectedAlt => 132,
            Label::Mach => 133,
            Label::TrueAirspeed => 136,
            Label::Tat => 137,
            Label::Date => 176,
            Label::RollAngle => 212,
            Label::Unknown(n) => *n,
        }
    }

    /// Standard octal representation: three digits, zero-padded.
    pub fn octal(&self) -> (r: String)
        ensures
            r@ == octal_text(self.code()),
    {
        let c = self.raw() as u32;
        let mut s = String::new();
        s.append(digit_str(c / 64));
        s.append(digit_str(c / 8 % 8));
        s.append(digit_str(c % 8));
        s
    }

    /// Human-readable parameter name.
    pub fn name(&self) -> (r: &'static str)
        ensures
            r@ == self.name_spec(),
    {
        match self {
            Label::GroundSpeed => "Ground Speed",
            Label::UtcTime => "UTC Time",
            Label::PressureAltitude => "Pressure Altitude (1013.25 mb)",
            Label::BaroCorrectedAlt => "Baro-Corrected Altitude",
            Label::Mach => "Mach",
            Label::TrueAirspeed => "True Airspeed",
            Label::Tat => "Total Air Temperature (TAT)",
            Label::Date => "Date",
            Label::RollAngle => "Roll Angle",
            Label::Unknown(_) => "Unknown Label",
        }
    }

    /// Physical units of the parameter (empty if it has none).
    pub fn units(&self) -> (r: &'static str)
        ensures
            r@ == self.units_spec(),
    {
        match self {
            Label::GroundSpeed | Label::TrueAirspeed => "knots",
            Label::PressureAltitude | Label::BaroCorrectedAlt => "feet",
            Label::Tat => "°C",
            Label::RollAngle => "°",
            _ => "",
        }
    }
}

} // verus!
