//! Interpretation of the two-byte status word that closes every response
//! from the device.

use vstd::prelude::*;
use vstd::string::StringExecFns;

verus! {

/// The status words the device uses to report a failed command.
#[derive(Clone, Copy, Debug, PartialEq, Eq, Structural)]
pub enum ErrorResponse {
    NoSpace,
    CommandAborted,
    InvalidInstruction,
    AuthRequired,
    WrongSyntax,
    GenericError,
    NoSuchObject,
}

impl ErrorResponse {
    /// The combined status word for this error, first status byte high.
    pub open spec fn spec_code(self) -> u16 {
        match self {
            ErrorResponse::NoSpace => 0x6a84,
            ErrorResponse::CommandAborted => 0x6f00,
            ErrorResponse::InvalidInstruction => 0x6d00,
            ErrorResponse::AuthRequired => 0x6982,
            ErrorResponse::WrongSyntax => 0x6a80,
            ErrorResponse::GenericError => 0x6581,
            ErrorResponse::NoSuchObject => 0x6984,
        }
    }

    /// The combined status word for this error, first status byte high.
    pub fn code(self) -> (c: u16)
        ensures
            c == self.spec_code(),
    {
        match self {
            ErrorResponse::NoSpace => 0x6a84,
            ErrorResponse::CommandAborted => 0x6f00,
            ErrorResponse::InvalidInstruction => 0x6d00,
            ErrorResponse::AuthRequired => 0x6982,
            ErrorResponse::WrongSyntax => 0x6a80,
            ErrorResponse::GenericError => 0x6581,
            ErrorResponse::NoSuchObject => 0x6984,
        }
    }
}

/// The status words that do not end an operation: complete success, and the
/// signal that more response data waits on the device.
#[derive(Clone, Copy, Debug, PartialEq, Eq, Structural)]
pub enum SuccessResponse {
    MoreData,
    Okay,
}

impl SuccessResponse {
    /// `Okay` is a full two-byte status word; `MoreData` is the value of the
    /// first status byte alone, whatever the second carries.
    pub open spec fn spec_code(self) -> u16 {
        match self {
            SuccessResponse::MoreData => 0x61,
            SuccessResponse::Okay => 0x9000,
        }
    }

    /// `Okay` is a full two-byte status word; `MoreData` is the value of the
    /// first status byte alone, whatever the second carries.
    pub fn code(self) -> (c: u16)
        ensures
            c == self.spec_code(),
    {
        match self {
            SuccessResponse::MoreData => 0x61,
            SuccessResponse::Okay => 0x9000,
        }
    }
}

/// What a status word means for the operation in flight.
#[derive(Debug, PartialEq, Eq)]
pub enum Outcome {
    /// The command completed and the response is whole.
    Success,
    /// The command completed but more response bytes wait on the device.
    MoreData,
    /// The device refused the command; the message describes why.
    Error(String),
}

/// The combined status word, first byte high.
pub open spec fn spec_status_code(sw1: u8, sw2: u8) -> int {
    (sw1 as int) * 256 + (sw2 as int)
}

/// The error message for a status word: `None` where the status reports
/// success or more data, otherwise the message of the matching entry of the
/// fixed error table, with a generic fallback for codes outside it.
pub open spec fn spec_status_message(sw1: u8, sw2: u8) -> Option<Seq<char>> {
    let code = spec_status_code(sw1, sw2);
    if code == 0x9000 {
        None
    } else if sw1 == 0x61 {
        None
    } else if code == 0x6581 {
        Some("Generic error"@)
    } else if code == 0x6a84 {
        Some("No space on device"@)
    } else if code == 0x6f00 {
        Some("Command was aborted"@)
    } else if code == 0x6982 {
        Some("Authentication required"@)
    } else if code == 0x6a80 {
        Some("Wrong syntax"@)
    } else if code == 0x6d00 {
        Some("Invalid instruction"@)
    } else if code == 0x6984 {
        Some("No such object"@)
    } else {
        Some("Unknown error"@)
    }
}

/// Classifies a status word: `0x9000` is success; a first byte of `0x61` says
/// more data waits; everything else is an error, described by the fixed table.
pub fn classify(sw1: u8, sw2: u8) -> (r: Outcome)
    ensures
        r is Success <==> (sw1 == 0x90 && sw2 == 0x00),
        r is MoreData <==> (sw1 == 0x61),
        r is Error <==> spec_status_message(sw1, sw2) is Some,
        r matches Outcome::Error(m) ==> spec_status_message(sw1, sw2) == Some(m@),
{
    let code: u16 = (sw1 as u16) * 256 + (sw2 as u16);
    if code == 0x9000 {
        Outcome::Success
    } else if sw1 == 0x61 {
        Outcome::MoreData
    } else if code == 0x6581 {
        Outcome::Error(String::from_str("Generic error"))
    } else if code == 0x6a84 {
        Outcome::Error(String::from_str("No space on device"))
    } else if code == 0x6f00 {
        Outcome::Error(String::from_str("Command was aborted"))
    } else if code == 0x6982 {
        Outcome::Error(String::from_str("Authentication required"))
    } else if code == 0x6a80 {
        Outcome::Error(String::from_str("Wrong syntax"))
    } else if code == 0x6d00 {
        Outcome::Error(String::from_str("Invalid instruction"))
    } else if code == 0x6984 {
        Outcome::Error(String::from_str("No such object"))
    } else {
        Outcome::Error(String::from_str("Unknown error"))
    }
}

/// The error message for a status word, or `None` where the status reports
/// success or more data.
pub fn to_error_response(sw1: u8, sw2: u8) -> (r: Option<String>)
    ensures
        r is Some <==> spec_status_message(sw1, sw2) is Some,
        r matches Some(m) ==> spec_status_message(sw1, sw2) == Some(m@),
{
    match classify(sw1, sw2) {
        Outcome::Error(m) => Some(m),
        _ => None,
    }
}

} // verus!
