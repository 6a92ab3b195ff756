use vstd::prelude::*;

use crate::label::Label;
use crate::ssm::Ssm;
use crate::text::{push_two_digits, two_digits};

verus! {

/// A BNR reading as an exact fraction: the physical value is `count / divisor`.
#[derive(Debug, Clone, Copy, PartialEq, Eq, Structural)]
pub struct BnrValue {
    /// The data field, as an unsigned or a sign-corrected count.
    pub count: i64,
    /// The number of counts per physical unit (8 for a resolution of 0.125).
    pub divisor: u32,
}

/// The data field read as a 19-bit two's-complement number: bit 18 is the sign,
/// and a set sign subtracts 0x80000.
pub open spec fn signed19(d: u32) -> int {
    if d & 0x40000 != 0 {
        d - 0x80000
    } else {
        d as int
    }
}

/// Reads a data field as a 19-bit two's-complement number.
pub fn signed_data(d: u32) -> (r: i64)
    ensures
        r == signed19(d),
        d <= 0x7FFFF ==> r == (if d >= 0x40000 {
            d - 0x80000
        } else {
            d as int
        }),
{
    assert(d <= 0x7FFFF ==> ((d & 0x40000 != 0) == (d >= 0x40000))) by (bit_vector);
    if d & 0x40000 != 0 {
        d as i64 - 0x80000
    } else {
        d as i64
    }
}

/// The bits of `d` from bit `shift` upward, cut to `mask`.
pub open spec fn field(d: u32, shift: u32, mask: u32) -> nat {
    ((d >> shift) & mask) as nat
}

/// The BCD date held in a data field as `dd-mm-yy`, when every digit is in range
/// and neither day nor month is zero. Digits: year units in bits 0–3, year tens in
/// bits 4–7, month units in bits 8–11, month tens in bit 12, day units in bits 13–16,
/// day tens in bits 17–18.
pub open spec fn bcd_date_text(d: u32) -> Option<Seq<char>> {
    let year_units = field(d, 0, 0xF);
    let year_tens = field(d, 4, 0xF);
    let month_units = field(d, 8, 0xF);
    let month_tens = field(d, 12, 0x1);
    let day_units = field(d, 13, 0xF);
    let day_tens = field(d, 17, 0x3);
    let day = day_tens * 10 + day_units;
    let month = month_tens * 10 + month_units;
    let year = year_tens * 10 + year_units;
    if year_tens <= 9 && year_units <= 9 && month_tens <= 1 && month_units <= 9 && day_tens <= 3
        && day_units <= 9 && month != 0 && day != 0 {
        Some(two_digits(day) + seq!['-'] + two_digits(month) + seq!['-'] + two_digits(year))
    } else {
        None
    }
}

/// The BCD time of day held in a data field as `hh:mm:ss`, when every digit is in
/// range. Digits: second units in bits 0–3, second tens in bits 4–6, minute units in
/// bits 7–10, minute tens in bits 11–13, hour units in bits 14–17, hour tens in
/// bits 18–19.
pub open spec fn bcd_time_text(d: u32) -> Option<Seq<char>> {
    let sec_units = field(d, 0, 0xF);
    let sec_tens = field(d, 4, 0x7);
    let min_units = field(d, 7, 0xF);
    let min_tens = field(d, 11, 0x7);
    let hour_units = field(d, 14, 0xF);
    let hour_tens = field(d, 18, 0x3);
    if hour_tens <= 2 && hour_units <= 9 && min_tens <= 5 && min_units <= 9 && sec_tens <= 5
        && sec_units <= 9 {
        Some(
            two_digits(hour_tens * 10 + hour_units) + seq![':'] + two_digits(
                min_tens * 10 + min_units,
            ) + seq![':'] + two_digits(sec_tens * 10 + sec_units),
        )
    } else {
        None
    }
}

/// A decoded word: its label, SDI, 19-bit data field and status.
#[derive(Debug, Clone, Copy, PartialEq, Eq, Structural)]
pub struct ArincWord {
    /// The parameter label.
    pub label: Label,
    /// Source/Destination Identifier (0–3).
    pub sdi: u8,
    /// Raw 19-bit data field.
    pub data: u32,
    /// Sign/Status Matrix.
    pub ssm: Ssm,
}

impl ArincWord {
    /// Field ranges that every decoded word satisfies.
    pub open spec fn wf(self) -> bool {
        self.sdi <= 3 && self.data <= 0x7FFFF
    }

    /// The BNR reading this word carries, by label: ground speed in eighths of a
    /// knot, altitudes in signed feet, Mach in thousandths, total air temperature
    /// in signed quarters of a degree, true airspeed in knots, roll angle in signed
    /// hundredths of a degree. Other labels, and any status but normal operation,
    /// carry none.
    pub open spec fn bnr_spec(self) -> Option<BnrValue> {
        if self.ssm != Ssm::NormalOperation {
            None
        } else {
            match self.label {
                Label::GroundSpeed => Some(BnrValue { count: self.data as i64, divisor: 8 }),
                Label::PressureAltitude | Label::BaroCorrectedAlt => Some(
                    BnrValue { count: signed19(self.data) as i64, divisor: 1 },
                ),
                Label::Mach => Some(BnrValue { count: self.data as i64, divisor: 1000 }),
                Label::Tat => Some(BnrValue { count: signed19(self.data) as i64, divisor: 4 }),
                Label::TrueAirspeed => Some(BnrValue { count: self.data as i64, divisor: 1 }),
                Label::RollAngle => Some(
                    BnrValue { count: signed19(self.data) as i64, divisor: 100 },
                ),
                _ => None,
            }
        }
    }

    /// The BNR reading of this word as an exact fraction, for the labels that
    /// carry one.
    ///
    /// Returns `None` if the status is not normal operation or the label is not a
    /// BNR label.
    pub fn bnr_value(&self) -> (r: Option<BnrValue>)
        ensures
            r == self.bnr_spec(),
    {
        if self.ssm != Ssm::NormalOperation {
            return None;
        }
        let signed = signed_data(self.data);
        let unsigned = self.data as i64;
        match self.label {
            Label::GroundSpeed => Some(BnrValue { count: unsigned, divisor: 8 }),
            Label::PressureAltitude | Label::BaroCorrectedAlt => Some(
                BnrValue { count: signed, divisor: 1 },
            ),
            Label::Mach => Some(BnrValue { count: unsigned, divisor: 1000 }),
            Label::Tat => Some(BnrValue { count: signed, divisor: 4 }),
            Label::TrueAirspeed => Some(BnrValue { count: unsigned, divisor: 1 }),
            Label::RollAngle => Some(BnrValue { count: signed, divisor: 100 }),
            _ => None,
        }
    }

    /// The date this word carries: only a Date word in normal operation has one.
    pub open spec fn date_text(self) -> Option<Seq<char>> {
        if self.label == Label::Date && self.ssm == Ssm::NormalOperation {
            bcd_date_text(self.data)
        } else {
            None
        }
    }

    /// The time this word carries: only a UTC Time word in normal operation has one.
    pub open spec fn time_text(self) -> Option<Seq<char>> {
        if self.label == Label::UtcTime && self.ssm == Ssm::NormalOperation {
            bcd_time_text(self.data)
        } else {
            None
        }
    }

    /// Decodes a BCD date word to `dd-mm-yy`.
    ///
    /// Returns `None` on a label other than Date, a status other than normal
    /// operation, a digit out of range, or a zero day or month.
    pub fn to_bcd_date(&self) -> (r: Option<String>)
        ensures
            r is None <==> self.date_text() is None,
            r is Some ==> r->Some_0@ == self.date_text()->Some_0,
    {
        if self.label != Label::Date || self.ssm != Ssm::NormalOperation {
            return None;
        }
        let d = self.data;
        let year_units = d & 0xF;
        let year_tens = (d >> 4) & 0xF;
        let month_units = (d >> 8) & 0xF;
        let month_tens = (d >> 12) & 0x1;
        let day_units = (d >> 13) & 0xF;
        let day_tens = (d >> 17) & 0x3;
        assert(year_units == d & 0xF && d & 0xF == (d >> 0) & 0xF) by (bit_vector)
            requires
                year_units == d & 0xF,
        ;
        if year_tens > 9 || year_units > 9 || month_tens > 1 || month_units > 9 || day_tens > 3
            || day_units > 9 || month_tens * 10 + month_units == 0 || day_tens * 10 + day_units
            == 0 {
            return None;
        }
        let mut s = String::new();
        push_two_digits(&mut s, day_tens * 10 + day_units);
        proof {
            reveal_strlit("-");
        }
        s.append("-");
        push_two_digits(&mut s, month_tens * 10 + month_units);
        s.append("-");
        push_two_digits(&mut s, year_tens * 10 + year_units);
        Some(s)
    }

    /// Decodes a BCD UTC time word to `hh:mm:ss`.
    ///
    /// Returns `None` on a label other than UTC Time, a status other than normal
    /// operation, or a digit out of range.
    pub fn to_bcd_time(&self) -> (r: Option<String>)
        ensures
            r is None <==> self.time_text() is None,
            r is Some ==> r->Some_0@ == self.time_text()->Some_0,
    {
        if self.label != Label::UtcTime || self.ssm != Ssm::NormalOperation {
            return None;
        }
        let d = self.data;
        let sec_units = d & 0xF;
        let sec_tens = (d >> 4) & 0x7;
        let min_units = (d >> 7) & 0xF;
        let min_tens = (d >> 11) & 0x7;
        let hour_units = (d >> 14) & 0xF;
        let hour_tens = (d >> 18) & 0x3;
        assert(sec_units == d & 0xF && d & 0xF == (d >> 0) & 0xF) by (bit_vector)
            requires
                sec_units == d & 0xF,
        ;
        if hour_tens > 2 || hour_units > 9 || min_tens > 5 || min_units > 9 || sec_tens > 5
            || sec_units > 9 {
            return None;
        }
        let mut s = String::new();
        push_two_digits(&mut s, hour_tens * 10 + hour_units);
        proof {
            reveal_strlit(":");
        }
        s.append(":");
        push_two_digits(&mut s, min_tens * 10 + min_units);
        s.append(":");
        push_two_digits(&mut s, sec_tens * 10 + sec_units);
        Some(s)
    }
}

} // verus!
