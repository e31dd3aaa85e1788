//! Tests of APDU construction, response splitting, the continuation
//! protocol, and credential list parsing.

use ykoath::FetchStep;
use ykoath::Instruction;
use ykoath::OathCode;
use ykoath::OathCredential;
use ykoath::OathDigits;
use ykoath::YubiKey;
use ykoath::absorb_response;
use ykoath::build_apdu;
use ykoath::calculate_all_command;
use ykoath::format_code;
use ykoath::oath_aid;
use ykoath::select_command;
use ykoath::send_remaining_command;
use ykoath::split_response;
use ykoath::time_challenge;
use ykoath::to_tlv;
use ykoath::Tag;

#[test]
fn apdu_without_data() {
    assert_eq!(build_apdu(0x00, 0xa5, 0x00, 0x00, None), vec![0x00, 0xa5, 0x00, 0x00, 0x00]);
}

#[test]
fn apdu_with_short_data() {
    let data = [0xde, 0xad, 0xbe, 0xef];
    assert_eq!(
        build_apdu(0x00, 0xa2, 0x01, 0x02, Some(&data)),
        vec![0x00, 0xa2, 0x01, 0x02, 0x04, 0xde, 0xad, 0xbe, 0xef]
    );
}

#[test]
fn apdu_with_255_data_bytes_keeps_one_length_byte() {
    let data = [7u8; 255];
    let apdu = build_apdu(0x00, 0x01, 0x00, 0x00, Some(&data));
    assert_eq!(apdu[4], 255);
    assert_eq!(apdu.len(), 5 + 255);
}

#[test]
fn apdu_with_long_data_uses_three_length_bytes() {
    let data = [7u8; 300];
    let apdu = build_apdu(0x00, 0x01, 0x00, 0x00, Some(&data));
    assert_eq!(&apdu[4..7], &[0x00, 0x01, 0x2c]);
    assert_eq!(apdu.len(), 7 + 300);
}

#[test]
fn select_command_carries_the_aid() {
    assert_eq!(
        select_command(),
        vec![0x00, 0xa4, 0x04, 0x00, 0x07, 0xa0, 0x00, 0x00, 0x05, 0x27, 0x21, 0x01]
    );
    assert_eq!(oath_aid(), vec![0xa0, 0x00, 0x00, 0x05, 0x27, 0x21, 0x01]);
}

#[test]
fn calculate_all_wraps_the_challenge() {
    let cmd = calculate_all_command(Some(90));
    let challenge = time_challenge(Some(90));
    let data = to_tlv(Tag::Challenge, &challenge);
    let expected = build_apdu(0x00, 0xa4, 0x00, 0x01, Some(&data));
    assert_eq!(cmd, expected);
    assert_eq!(&cmd[..4], &[0x00, 0xa4, 0x00, 0x01]);
    assert_eq!(cmd[5], 0x74);
    assert_eq!(cmd[6], 0x08);
}

#[test]
fn send_remaining_is_instruction_only() {
    assert_eq!(send_remaining_command(), vec![0x00, 0xa5, 0x00, 0x00, 0x00]);
}

#[test]
fn instruction_bytes() {
    assert_eq!(Instruction::Put.byte(), 0x01);
    assert_eq!(Instruction::Delete.byte(), 0x02);
    assert_eq!(Instruction::SetCode.byte(), 0x03);
    assert_eq!(Instruction::Reset.byte(), 0x04);
    assert_eq!(Instruction::List.byte(), 0xa1);
    assert_eq!(Instruction::Calculate.byte(), 0xa2);
    assert_eq!(Instruction::Validate.byte(), 0xa3);
    assert_eq!(Instruction::CalculateAll.byte(), 0xa4);
    assert_eq!(Instruction::SendRemaining.byte(), 0xa5);
}

#[test]
fn split_strips_the_status_word() {
    let resp = split_response(&[1, 2, 3, 0x90, 0x00]).unwrap();
    assert_eq!(resp.buf, vec![1, 2, 3]);
    assert_eq!((resp.sw1, resp.sw2), (0x90, 0x00));
}

#[test]
fn split_of_a_bare_status_word_leaves_an_empty_payload() {
    let resp = split_response(&[0x61, 0x10]).unwrap();
    assert!(resp.buf.is_empty());
    assert_eq!((resp.sw1, resp.sw2), (0x61, 0x10));
}

#[test]
fn split_rejects_short_responses() {
    assert!(split_response(&[]).is_err());
    assert!(split_response(&[0x90]).is_err());
}

#[test]
fn continuation_assembles_both_parts() {
    // a simulated transport: first exchange returns payload p1 with a
    // more-data status, the send-remaining fetch returns p2 with success
    let p1 = vec![0x71, 0x01, 0x61];
    let p2 = vec![0x76, 0x03, 0x06];
    let mut acc: Vec<u8> = Vec::new();
    let step = absorb_response(&mut acc, &p1, 0x61, 0x00);
    assert_eq!(step, FetchStep::Fetch);
    let step = absorb_response(&mut acc, &p2, 0x90, 0x00);
    assert_eq!(step, FetchStep::Done);
    let expected: Vec<u8> = p1.iter().chain(p2.iter()).copied().collect();
    assert_eq!(acc, expected);
}

#[test]
fn continuation_discards_nothing_but_reports_the_error() {
    let mut acc: Vec<u8> = vec![9, 9];
    let step = absorb_response(&mut acc, &[1, 2, 3], 0x69, 0x82);
    assert_eq!(step, FetchStep::Failed(String::from("Authentication required")));
    assert_eq!(acc, vec![9, 9]);
}

fn key() -> YubiKey<'static> {
    YubiKey { name: "reader 0" }
}

#[test]
fn parse_one_record() {
    // name tag, length 4, "abcd", discarded response tag and length,
    // digit byte 6, code bytes for 123456
    let buf = [0x71, 0x04, b'a', b'b', b'c', b'd', 0x76, 0x06, 0x06, 0x00, 0x01, 0xe2, 0x40];
    let creds = key().parse_list(&buf).unwrap();
    assert_eq!(creds.len(), 1);
    assert_eq!(creds[0].name, "abcd");
    assert_eq!(creds[0].code.digits, OathDigits::Six);
    assert_eq!(creds[0].code.value, 123456);
    assert_eq!(format_code(123456, OathDigits::Six), "123456");
}

#[test]
fn parse_two_records() {
    let mut buf = vec![0x71, 0x02, b'o', b'k', 0x76, 0x06, 0x08, 0x00, 0x00, 0x00, 0x2a];
    buf.extend([0x71, 0x01, b'z', 0x76, 0x06, 0x06, 0x00, 0x0f, 0x42, 0x3f]);
    let creds = key().parse_list(&buf).unwrap();
    assert_eq!(creds.len(), 2);
    assert_eq!(creds[0], OathCredential::new("ok", OathCode { digits: OathDigits::Eight, value: 42 }));
    assert_eq!(creds[1], OathCredential::new("z", OathCode { digits: OathDigits::Six, value: 999999 }));
}

#[test]
fn parse_keeps_records_before_a_truncated_tail() {
    // a complete record, then a record whose declared name length exceeds
    // what remains
    let mut buf = vec![0x71, 0x02, b'o', b'k', 0x76, 0x06, 0x08, 0x00, 0x00, 0x00, 0x2a];
    buf.extend([0x71, 0x20, b'c', b'u', b't']);
    let creds = key().parse_list(&buf).unwrap();
    assert_eq!(creds.len(), 1);
    assert_eq!(creds[0].name, "ok");
    assert_eq!(creds[0].code.value, 42);
}

#[test]
fn parse_of_an_empty_buffer_is_a_clean_end() {
    assert_eq!(key().parse_list(&[]).unwrap(), Vec::new());
}

#[test]
fn parse_stops_at_an_unknown_digit_count() {
    let mut buf = vec![0x71, 0x01, b'a', 0x76, 0x06, 0x06, 0x00, 0x00, 0x00, 0x01];
    buf.extend([0x71, 0x01, b'b', 0x76, 0x06, 0x07, 0x00, 0x00, 0x00, 0x02]);
    let creds = key().parse_list(&buf).unwrap();
    assert_eq!(creds.len(), 1);
    assert_eq!(creds[0].name, "a");
}

#[test]
fn parse_stops_at_an_unsupported_length_form() {
    let buf = [0x71, 0x83, 0x00, 0x00, 0x00];
    assert_eq!(key().parse_list(&buf).unwrap(), Vec::new());
}

#[test]
fn parse_handles_an_extended_name_length() {
    let name: Vec<u8> = std::iter::repeat(b'n').take(0x80).collect();
    let mut buf = vec![0x71, 0x81, 0x80];
    buf.extend(&name);
    buf.extend([0x76, 0x06, 0x06, 0x00, 0x00, 0x00, 0x09]);
    let creds = key().parse_list(&buf).unwrap();
    assert_eq!(creds.len(), 1);
    assert_eq!(creds[0].name.len(), 0x80);
    assert_eq!(creds[0].code.value, 9);
}

#[test]
fn parse_stops_at_a_name_that_is_not_utf8() {
    let mut buf = vec![0x71, 0x01, b'a', 0x76, 0x06, 0x06, 0x00, 0x00, 0x00, 0x01];
    buf.extend([0x71, 0x02, 0xff, 0xfe, 0x76, 0x06, 0x06, 0x00, 0x00, 0x00, 0x02]);
    let creds = key().parse_list(&buf).unwrap();
    assert_eq!(creds.len(), 1);
}

#[test]
fn credential_new_keeps_its_parts() {
    let c = OathCredential::new("work:mail", OathCode { digits: OathDigits::Six, value: 7 });
    assert_eq!(c.name, "work:mail");
    assert_eq!(c.code, OathCode { digits: OathDigits::Six, value: 7 });
}
