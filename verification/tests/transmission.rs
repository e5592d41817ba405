use fastsim_vehicle::transmission::{decode_transmission, ParseError, TransmissionType};

#[test]
fn decode_manual_with_speed_marker() {
    assert_eq!(decode_transmission("Manual 6-spd"), Ok((TransmissionType::Manual, 6)));
}

#[test]
fn decode_variable_gear_ratios() {
    assert_eq!(
        decode_transmission("Automatic (variable gear ratios)"),
        Ok((TransmissionType::Cvt, 1))
    );
}

#[test]
fn decode_semi_automatic_variant() {
    assert_eq!(
        decode_transmission("Automatic (AV-S6)"),
        Ok((TransmissionType::SemiAutoVariant, 6))
    );
}

#[test]
fn decode_automated_manual_variant() {
    assert_eq!(
        decode_transmission("Automatic (AM-S7)"),
        Ok((TransmissionType::AutoManualVariant, 7))
    );
}

#[test]
fn decode_semi_automatic() {
    assert_eq!(decode_transmission("Automatic (S8)"), Ok((TransmissionType::SemiAutomatic, 8)));
    assert_eq!(decode_transmission("Automatic (S10)"), Ok((TransmissionType::SemiAutomatic, 10)));
}

#[test]
fn decode_automatic_with_speed_marker() {
    assert_eq!(decode_transmission("Automatic 4-spd"), Ok((TransmissionType::Automatic, 4)));
}

#[test]
fn decode_automatic_in_brackets() {
    assert_eq!(decode_transmission("Automatic (A1)"), Ok((TransmissionType::Automatic, 1)));
    assert_eq!(decode_transmission("Automatic (A10)"), Ok((TransmissionType::Automatic, 10)));
}

#[test]
fn decode_takes_the_first_form_that_applies() {
    // `Manual` decides before `S` is looked for.
    assert_eq!(decode_transmission("Manual(S5) 5-spd"), Ok((TransmissionType::Manual, 5)));
    // `variable gear ratios` decides before `AV-S`.
    assert_eq!(
        decode_transmission("Auto (AV-S6) variable gear ratios"),
        Ok((TransmissionType::Cvt, 1))
    );
}

#[test]
fn decode_rejects_text_without_a_form() {
    assert_eq!(decode_transmission("Automatic"), Err(ParseError::Pattern));
    assert_eq!(decode_transmission(""), Err(ParseError::Pattern));
}

#[test]
fn decode_rejects_manual_without_marker() {
    assert_eq!(decode_transmission("Manual"), Err(ParseError::Pattern));
    assert_eq!(decode_transmission("Manual -spd"), Err(ParseError::Number));
    assert_eq!(decode_transmission("-spd Manual"), Err(ParseError::Pattern));
}

#[test]
fn decode_rejects_unreadable_gear_count() {
    assert_eq!(decode_transmission("Automatic (Sx)"), Err(ParseError::Number));
    assert_eq!(decode_transmission("Automatic (S)"), Err(ParseError::Number));
    assert_eq!(decode_transmission("Automatic (A)"), Err(ParseError::Number));
    assert_eq!(decode_transmission("Manual x-spd"), Err(ParseError::Number));
    assert_eq!(decode_transmission("Manual 0-spd"), Err(ParseError::Number));
}

#[test]
fn decode_rejects_missing_or_misplaced_bracket() {
    assert_eq!(decode_transmission("Automatic (S8"), Err(ParseError::Pattern));
    assert_eq!(decode_transmission("Automatic )S8("), Err(ParseError::Pattern));
    assert_eq!(decode_transmission("Automatic (A6"), Err(ParseError::Pattern));
}

#[test]
fn decode_reads_the_first_s_and_the_first_bracket() {
    // The first `S` opens the field, so the text up to the bracket must be a number.
    assert_eq!(decode_transmission("Semi (S8)"), Err(ParseError::Number));
}

#[test]
fn transmission_codes() {
    assert_eq!(TransmissionType::Manual.code(), "M");
    assert_eq!(TransmissionType::Cvt.code(), "CVT");
    assert_eq!(TransmissionType::SemiAutoVariant.code(), "SCV");
    assert_eq!(TransmissionType::AutoManualVariant.code(), "AMS");
    assert_eq!(TransmissionType::SemiAutomatic.code(), "SA");
    assert_eq!(TransmissionType::Automatic.code(), "A");
}
