use arinc429::{ArincError, ArincWord, Label, Ssm};

fn normal(label: Label, data: u32) -> ArincWord {
    ArincWord { label, sdi: 0, data, ssm: Ssm::NormalOperation }
}

#[test]
fn bcd_date_vector() {
    let w = normal(Label::Date, 0b00_0110_0_0001_0010_0110);
    assert_eq!(w.to_bcd_date(), Some("06-01-26".to_string()));
}

#[test]
fn bcd_date_largest_fields() {
    let data = (0b11 << 17) | (0b0001 << 13) | (0b1 << 12) | (0b0010 << 8) | (0b1001 << 4) | 0b1001;
    assert_eq!(normal(Label::Date, data).to_bcd_date(), Some("31-12-99".to_string()));
}

#[test]
fn bcd_date_rejects_bad_digits_and_zeros() {
    let month_zero = (0b0110 << 13) | (0b0010 << 4) | 0b0110;
    assert_eq!(normal(Label::Date, month_zero).to_bcd_date(), None);
    let day_zero = (0b0001 << 8) | (0b0010 << 4) | 0b0110;
    assert_eq!(normal(Label::Date, day_zero).to_bcd_date(), None);
    let year_units_ten = (0b0110 << 13) | (0b0001 << 8) | 0b1010;
    assert_eq!(normal(Label::Date, year_units_ten).to_bcd_date(), None);
    let day_units_ten = (0b1010 << 13) | (0b0001 << 8);
    assert_eq!(normal(Label::Date, day_units_ten).to_bcd_date(), None);
}

#[test]
fn bcd_date_needs_date_label() {
    let w = normal(Label::UtcTime, 0b00_0110_0_0001_0010_0110);
    assert_eq!(w.to_bcd_date(), None);
}

#[test]
fn bcd_time_vector() {
    let w = normal(Label::UtcTime, 0b01_0010_011_0100_101_0110);
    assert_eq!(w.to_bcd_time(), Some("12:34:56".to_string()));
}

#[test]
fn bcd_time_midnight_and_bounds() {
    assert_eq!(normal(Label::UtcTime, 0).to_bcd_time(), Some("00:00:00".to_string()));
    let late = (0b10 << 18) | (0b0011 << 14) | (0b101 << 11) | (0b1001 << 7) | (0b101 << 4) | 0b1001;
    assert_eq!(normal(Label::UtcTime, late).to_bcd_time(), Some("23:59:59".to_string()));
    let hour_tens_three = 0b11 << 18;
    assert_eq!(normal(Label::UtcTime, hour_tens_three).to_bcd_time(), None);
    let sec_tens_six = 0b110 << 4;
    assert_eq!(normal(Label::UtcTime, sec_tens_six).to_bcd_time(), None);
    let min_units_ten = 0b1010 << 7;
    assert_eq!(normal(Label::UtcTime, min_units_ten).to_bcd_time(), None);
}

#[test]
fn bcd_time_needs_time_label() {
    let w = normal(Label::Date, 0b01_0010_011_0100_101_0110);
    assert_eq!(w.to_bcd_time(), None);
}

#[test]
fn octal_parsing() {
    assert_eq!(Label::from_octal_str("203"), Ok(Label::PressureAltitude));
    assert_eq!(Label::from_octal_str("324"), Ok(Label::RollAngle));
    assert_eq!(Label::from_octal_str("+12"), Ok(Label::GroundSpeed));
    assert_eq!(Label::from_octal_str("0012"), Ok(Label::GroundSpeed));
    assert_eq!(Label::from_octal_str("377"), Ok(Label::Unknown(255)));
    assert_eq!(Label::from_octal_str("7"), Ok(Label::Unknown(7)));
}

#[test]
fn octal_parsing_errors() {
    for s in ["", "+", "-12", "8", "019", "400", "12 ", "abc"] {
        assert_eq!(Label::from_octal_str(s), Err(ArincError::InvalidOctalLabel));
    }
}

#[test]
fn octal_text() {
    assert_eq!(Label::GroundSpeed.octal(), "012");
    assert_eq!(Label::UtcTime.octal(), "150");
    assert_eq!(Label::Tat.octal(), "211");
    assert_eq!(Label::TrueAirspeed.octal(), "210");
    assert_eq!(Label::RollAngle.octal(), "324");
    assert_eq!(Label::Unknown(0).octal(), "000");
    assert_eq!(Label::Unknown(255).octal(), "377");
    assert_eq!(Label::Unknown(8).octal(), "010");
}

#[test]
fn label_codes_and_text() {
    let all = [
        (Label::GroundSpeed, 10u8, "Ground Speed", "knots"),
        (Label::UtcTime, 104, "UTC Time", ""),
        (Label::PressureAltitude, 131, "Pressure Altitude (1013.25 mb)", "feet"),
        (Label::BaroCorrectedAlt, 132, "Baro-Corrected Altitude", "feet"),
        (Label::Mach, 133, "Mach", ""),
        (Label::TrueAirspeed, 136, "True Airspeed", "knots"),
        (Label::Tat, 137, "Total Air Temperature (TAT)", "°C"),
        (Label::Date, 176, "Date", ""),
        (Label::RollAngle, 212, "Roll Angle", "°"),
        (Label::Unknown(5), 5, "Unknown Label", ""),
    ];
    for (label, code, name, units) in all {
        assert_eq!(label.raw(), code);
        assert_eq!(Label::from_u8(code), label);
        assert_eq!(label.name(), name);
        assert_eq!(label.units(), units);
    }
}

#[test]
fn ssm_codes_and_names() {
    assert_eq!(Ssm::from_u8(0), Ssm::FailureWarning);
    assert_eq!(Ssm::from_u8(1), Ssm::NoComputedData);
    assert_eq!(Ssm::from_u8(2), Ssm::FunctionalTest);
    assert_eq!(Ssm::from_u8(3), Ssm::NormalOperation);
    assert_eq!(Ssm::from_u8(4), Ssm::NoComputedData);
    assert_eq!(Ssm::from_u8(255), Ssm::NoComputedData);
    assert_eq!(Ssm::FailureWarning.name(), "Failure Warning");
    assert_eq!(Ssm::NoComputedData.name(), "No Computed Data");
    assert_eq!(Ssm::FunctionalTest.name(), "Functional Test");
    assert_eq!(Ssm::NormalOperation.name(), "Normal Operation");
}
