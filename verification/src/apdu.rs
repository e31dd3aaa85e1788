//! Command APDU construction and response handling: the byte frame sent for
//! each instruction, the split of a raw response into payload and status
//! word, and the step that assembles a multi-part response.

use vstd::prelude::*;
use vstd::slice::slice_subrange;
use vstd::slice::slice_to_vec;
use vstd::string::StringExecFns;
use crate::endian::push_u16_be;
use crate::endian::spec_u16_to_be_bytes;
use crate::status::Outcome;
use crate::status::classify;
use crate::status::spec_status_message;
use crate::tlv::Tag;
use crate::tlv::spec_tlv;
use crate::tlv::to_tlv;
use crate::challenge::spec_challenge;
use crate::challenge::time_challenge;

verus! {

/// The instruction byte of the applet-selection command.
pub const INS_SELECT: u8 = 0xa4;

/// The instruction set of the OATH applet.
#[derive(Clone, Copy, Debug, PartialEq, Eq, Structural)]
pub enum Instruction {
    Put,
    Delete,
    SetCode,
    Reset,
    List,
    Calculate,
    Validate,
    CalculateAll,
    SendRemaining,
}

impl Instruction {
    /// The wire byte of this instruction.
    pub open spec fn spec_byte(self) -> u8 {
        match self {
            Instruction::Put => 0x01,
            Instruction::Delete => 0x02,
            Instruction::SetCode => 0x03,
            Instruction::Reset => 0x04,
            Instruction::List => 0xa1,
            Instruction::Calculate => 0xa2,
            Instruction::Validate => 0xa3,
            Instruction::CalculateAll => 0xa4,
            Instruction::SendRemaining => 0xa5,
        }
    }

    /// The wire byte of this instruction.
    pub fn byte(self) -> (b: u8)
        ensures
            b == self.spec_byte(),
    {
        match self {
            Instruction::Put => 0x01,
            Instruction::Delete => 0x02,
            Instruction::SetCode => 0x03,
            Instruction::Reset => 0x04,
            Instruction::List => 0xa1,
            Instruction::Calculate => 0xa2,
            Instruction::Validate => 0xa3,
            Instruction::CalculateAll => 0xa4,
            Instruction::SendRemaining => 0xa5,
        }
    }
}

/// A response split into its payload and the two status bytes that closed it.
pub struct ApduResponse {
    pub buf: Vec<u8>,
    pub sw1: u8,
    pub sw2: u8,
}

/// The application identifier of the OATH applet.
pub open spec fn spec_oath_aid() -> Seq<u8> {
    seq![0xa0u8, 0x00u8, 0x00u8, 0x05u8, 0x27u8, 0x21u8, 0x01u8]
}

/// The application identifier of the OATH applet.
pub fn oath_aid() -> (r: Vec<u8>)
    ensures
        r@ == spec_oath_aid(),
{
    let mut v: Vec<u8> = Vec::new();
    v.push(0xa0);
    v.push(0x00);
    v.push(0x00);
    v.push(0x05);
    v.push(0x27);
    v.push(0x21);
    v.push(0x01);
    proof {
        assert(v@ =~= spec_oath_aid());
    }
    v
}

/// The length field before a command's data: one byte for up to 255 data
/// bytes, else a zero marker and a two-byte big-endian length.
pub open spec fn spec_data_len_field(n: nat) -> Seq<u8>
    recommends
        n <= 0xffff,
{
    if n <= 255 {
        seq![n as u8]
    } else {
        seq![0u8] + spec_u16_to_be_bytes(n as u16)
    }
}

/// A whole command APDU: class, instruction, the two parameters, the data
/// length field, and the data bytes where there are any.
pub open spec fn spec_apdu(
    class: u8,
    instruction: u8,
    p1: u8,
    p2: u8,
    data: Option<Seq<u8>>,
) -> Seq<u8> {
    match data {
        Option::None => seq![class, instruction, p1, p2] + spec_data_len_field(0),
        Option::Some(d) => seq![class, instruction, p1, p2] + spec_data_len_field(d.len()) + d,
    }
}

/// Builds the command APDU for an instruction and its optional data.
pub fn build_apdu(class: u8, instruction: u8, p1: u8, p2: u8, data: Option<&[u8]>) -> (r: Vec<u8>)
    requires
        data matches Some(d) ==> d@.len() <= 0xffff,
    ensures
        r@ == spec_apdu(class, instruction, p1, p2, match data {
            Option::Some(d) => Option::Some(d@),
            Option::None => Option::None,
        }),
{
    let mut buf: Vec<u8> = Vec::new();
    buf.push(class);
    buf.push(instruction);
    buf.push(p1);
    buf.push(p2);
    let nc = match data {
        Some(d) => d.len(),
        None => 0,
    };
    if nc > 255 {
        buf.push(0);
        push_u16_be(&mut buf, nc as u16);
    } else {
        buf.push(nc as u8);
    }
    proof {
        assert(buf@ =~= seq![class, instruction, p1, p2] + spec_data_len_field(nc as nat));
    }
    if let Some(d) = data {
        let ghost head = buf@;
        let mut i: usize = 0;
        while i < d.len()
            invariant
                i <= d@.len(),
                buf@ == head + d@.take(i as int),
            decreases d@.len() - i,
        {
            buf.push(d[i]);
            i = i + 1;
            proof {
                assert(buf@ =~= head + d@.take(i as int));
            }
        }
        proof {
            assert(d@.take(d@.len() as int) =~= d@);
        }
    }
    buf
}

/// Splits a raw response into its payload and the two-byte status word that
/// ends it; a response of fewer than two bytes breaks the protocol and is an
/// error.
pub fn split_response(raw: &[u8]) -> (r: Result<ApduResponse, String>)
    ensures
        raw@.len() >= 2 <==> r is Ok,
        r matches Ok(resp) ==> {
            &&& resp.buf@ == raw@.subrange(0, raw@.len() - 2)
            &&& resp.sw1 == raw@[raw@.len() - 2]
            &&& resp.sw2 == raw@[raw@.len() - 1]
        },
{
    if raw.len() < 2 {
        return Err(String::from_str("Response shorter than a status word"));
    }
    let n = raw.len();
    let sw1 = raw[n - 2];
    let sw2 = raw[n - 1];
    let buf = slice_to_vec(slice_subrange(raw, 0, n - 2));
    Ok(ApduResponse { buf, sw1, sw2 })
}

/// The select command for the OATH applet.
pub fn select_command() -> (r: Vec<u8>)
    ensures
        r@ == spec_apdu(0x00, 0xa4, 0x04, 0x00, Option::Some(spec_oath_aid())),
{
    let aid = oath_aid();
    build_apdu(0x00, INS_SELECT, 0x04, 0x00, Some(aid.as_slice()))
}

/// The calculate-all command: its data is the time challenge for the given
/// timestamp (the wall clock where none is given), wrapped as a challenge
/// TLV record.
pub fn calculate_all_command(timestamp: Option<u64>) -> (r: Vec<u8>)
    ensures
        timestamp matches Some(t) ==> r@ == spec_apdu(
            0x00,
            0xa4,
            0x00,
            0x01,
            Option::Some(spec_tlv(0x74, spec_challenge(t))),
        ),
        exists|t: u64| r@ == spec_apdu(
            0x00,
            0xa4,
            0x00,
            0x01,
            Option::Some(spec_tlv(0x74, spec_challenge(t))),
        ),
{
    let challenge = time_challenge(timestamp);
    let data = to_tlv(Tag::Challenge, challenge.as_slice());
    let r = build_apdu(
        0x00,
        Instruction::CalculateAll.byte(),
        0x00,
        0x01,
        Some(data.as_slice()),
    );
    proof {
        let t = choose|t: u64| challenge@ == spec_challenge(t);
        assert(r@ == spec_apdu(0x00, 0xa4, 0x00, 0x01, Option::Some(spec_tlv(0x74, spec_challenge(t)))));
    }
    r
}

/// The send-remaining command that fetches the next part of a long response.
pub fn send_remaining_command() -> (r: Vec<u8>)
    ensures
        r@ == spec_apdu(0x00, 0xa5, 0x00, 0x00, Option::None),
{
    build_apdu(0x00, Instruction::SendRemaining.byte(), 0x00, 0x00, None)
}

/// What the continuation protocol does after one exchange.
#[derive(Debug, PartialEq, Eq)]
pub enum FetchStep {
    /// More data waits: send the send-remaining command and absorb again.
    Fetch,
    /// The response is whole: the accumulated buffer is ready to parse.
    Done,
    /// The device reported the error carried here; the accumulated buffer
    /// holds nothing trustworthy and is left unextended.
    Failed(String),
}

/// One step of the continuation protocol: appends the payload of an exchange
/// to the accumulated response where its status word reports success or more
/// data, and surfaces the device's error otherwise, leaving the accumulation
/// untouched.
pub fn absorb_response(acc: &mut Vec<u8>, payload: &[u8], sw1: u8, sw2: u8) -> (step: FetchStep)
    ensures
        match step {
            FetchStep::Fetch => {
                &&& sw1 == 0x61
                &&& final(acc)@ == old(acc)@ + payload@
            },
            FetchStep::Done => {
                &&& sw1 == 0x90 && sw2 == 0x00
                &&& final(acc)@ == old(acc)@ + payload@
            },
            FetchStep::Failed(m) => {
                &&& spec_status_message(sw1, sw2) == Some(m@)
                &&& final(acc)@ == old(acc)@
            },
        },
        step is Failed <==> spec_status_message(sw1, sw2) is Some,
{
    match classify(sw1, sw2) {
        Outcome::Error(m) => FetchStep::Failed(m),
        outcome => {
            let ghost head = acc@;
            let mut i: usize = 0;
            while i < payload.len()
                invariant
                    i <= payload@.len(),
                    acc@ == head + payload@.take(i as int),
                decreases payload@.len() - i,
            {
                acc.push(payload[i]);
                i = i + 1;
                proof {
                    assert(acc@ =~= head + payload@.take(i as int));
                }
            }
            proof {
                assert(payload@.take(payload@.len() as int) =~= payload@);
            }
            if let Outcome::Success = outcome {
                FetchStep::Done
            } else {
                FetchStep::Fetch
            }
        },
    }
}

} // verus!
