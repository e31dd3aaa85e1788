//! Tests of status-word classification and code formatting.

use ykoath::ErrorResponse;
use ykoath::Outcome;
use ykoath::OathDigits;
use ykoath::SuccessResponse;
use ykoath::classify;
use ykoath::format_code;
use ykoath::to_error_response;

#[test]
fn classify_success() {
    assert_eq!(classify(0x90, 0x00), Outcome::Success);
}

#[test]
fn classify_more_data_whatever_the_hint() {
    assert_eq!(classify(0x61, 0x00), Outcome::MoreData);
    assert_eq!(classify(0x61, 0xff), Outcome::MoreData);
    assert_eq!(classify(0x61, 0x42), Outcome::MoreData);
}

#[test]
fn classify_no_space() {
    assert_eq!(
        classify(0x6a, 0x84),
        Outcome::Error(String::from("No space on device"))
    );
}

#[test]
fn classify_unknown() {
    assert_eq!(
        classify(0x99, 0x99),
        Outcome::Error(String::from("Unknown error"))
    );
}

#[test]
fn classify_whole_error_table() {
    let table = [
        (0x65u8, 0x81u8, "Generic error"),
        (0x6a, 0x84, "No space on device"),
        (0x6f, 0x00, "Command was aborted"),
        (0x69, 0x82, "Authentication required"),
        (0x6a, 0x80, "Wrong syntax"),
        (0x6d, 0x00, "Invalid instruction"),
        (0x69, 0x84, "No such object"),
    ];
    for (sw1, sw2, msg) in table {
        assert_eq!(classify(sw1, sw2), Outcome::Error(String::from(msg)));
        assert_eq!(to_error_response(sw1, sw2), Some(String::from(msg)));
    }
}

#[test]
fn error_response_is_none_on_success_and_more_data() {
    assert_eq!(to_error_response(0x90, 0x00), None);
    assert_eq!(to_error_response(0x61, 0x07), None);
}

#[test]
fn error_codes() {
    assert_eq!(ErrorResponse::NoSpace.code(), 0x6a84);
    assert_eq!(ErrorResponse::CommandAborted.code(), 0x6f00);
    assert_eq!(ErrorResponse::InvalidInstruction.code(), 0x6d00);
    assert_eq!(ErrorResponse::AuthRequired.code(), 0x6982);
    assert_eq!(ErrorResponse::WrongSyntax.code(), 0x6a80);
    assert_eq!(ErrorResponse::GenericError.code(), 0x6581);
    assert_eq!(ErrorResponse::NoSuchObject.code(), 0x6984);
    assert_eq!(SuccessResponse::Okay.code(), 0x9000);
    assert_eq!(SuccessResponse::MoreData.code(), 0x61);
}

#[test]
fn format_pads_short_codes() {
    assert_eq!(format_code(5, OathDigits::Six), "000005");
    assert_eq!(format_code(42, OathDigits::Eight), "00000042");
}

#[test]
fn format_keeps_rightmost_digits_of_wide_codes() {
    assert_eq!(format_code(123456789, OathDigits::Six), "456789");
    assert_eq!(format_code(4294967295, OathDigits::Eight), "94967295");
}

#[test]
fn format_exact_width() {
    assert_eq!(format_code(123456, OathDigits::Six), "123456");
    assert_eq!(format_code(12345678, OathDigits::Eight), "12345678");
}

#[test]
fn format_zero() {
    assert_eq!(format_code(0, OathDigits::Six), "000000");
    assert_eq!(format_code(0, OathDigits::Eight), "00000000");
}
