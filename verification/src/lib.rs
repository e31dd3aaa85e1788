//! Client-side implementation of the OATH protocol spoken by YubiKey-class
//! authenticator devices: APDU command construction, status-word
//! interpretation, TLV encoding and decoding, the time-based challenge,
//! multi-part response assembly, and parsing of the credential list that a
//! "calculate all" exchange returns.
//!
//! The library is pure byte logic: the smart-card transport that carries the
//! commands to a physical device lives outside it and hands it nothing but
//! plain byte buffers.

pub mod apdu;
pub mod challenge;
pub mod credential;
pub mod endian;
pub mod parse;
pub mod status;
pub mod tlv;

pub use apdu::ApduResponse;
pub use apdu::FetchStep;
pub use apdu::INS_SELECT;
pub use apdu::Instruction;
pub use apdu::absorb_response;
pub use apdu::build_apdu;
pub use apdu::calculate_all_command;
pub use apdu::oath_aid;
pub use apdu::select_command;
pub use apdu::send_remaining_command;
pub use apdu::spec_apdu;
pub use apdu::spec_data_len_field;
pub use apdu::spec_oath_aid;
pub use apdu::split_response;

pub use challenge::lemma_challenge_next_window;
pub use challenge::lemma_challenge_same_window;
pub use challenge::spec_challenge;
pub use challenge::time_challenge;

pub use tlv::Tag;
pub use tlv::decode_len;
pub use tlv::lemma_tlv_round_trip;
pub use tlv::spec_decode_len;
pub use tlv::spec_len_encoding;
pub use tlv::spec_tlv;
pub use tlv::to_tlv;

pub use credential::Mask;
pub use credential::OathAlgo;
pub use credential::OathCode;
pub use credential::OathCredential;
pub use credential::OathDigits;
pub use credential::OathType;
pub use credential::format_code;
pub use credential::spec_decimal;
pub use credential::spec_format;
pub use credential::spec_width;

pub use endian::spec_u16_to_be_bytes;
pub use endian::spec_u32_from_be_bytes;
pub use endian::spec_u32_to_be_bytes;
pub use endian::spec_u64_from_be_bytes;
pub use endian::spec_u64_to_be_bytes;

pub use parse::SpecCredential;
pub use parse::YubiKey;
pub use parse::creds_model;
pub use parse::lemma_parse_record_prepend;
pub use parse::lemma_parse_stops_at_truncated_name;
pub use parse::spec_digits_of_byte;
pub use parse::spec_parse;

pub use status::ErrorResponse;
pub use status::Outcome;
pub use status::SuccessResponse;
pub use status::classify;
pub use status::spec_status_message;
pub use status::to_error_response;
