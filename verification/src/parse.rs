//! The credential list parser: walks the assembled response buffer as a
//! sequence of TLV-framed records and produces the credentials in device
//! order. The parser is lenient at the tail: a record that the buffer cuts
//! short, an unsupported length form, a name that is not UTF-8 or a digit
//! count outside the protocol all end the list quietly, keeping every record
//! already parsed.

use vstd::prelude::*;
use vstd::slice::slice_subrange;
use vstd::slice::slice_to_vec;
use vstd::utf8::decode_utf8;
use vstd::utf8::valid_utf8;
use crate::credential::OathCode;
use crate::credential::OathCredential;
use crate::credential::OathDigits;
use crate::endian::lemma_u32_be_bytes_round_trip;
use crate::endian::read_u32_be;
use crate::endian::spec_u32_from_be_bytes;
use crate::endian::spec_u32_to_be_bytes;
use crate::tlv::decode_len;
use crate::tlv::lemma_decode_of_len_encoding;
use crate::tlv::spec_decode_len;
use crate::tlv::spec_len_encoding;

verus! {

/// A connected reader holding a device, under the name the transport lists
/// it by.
pub struct YubiKey<'a> {
    pub name: &'a str,
}

/// A credential record as the parser's model sees it.
pub struct SpecCredential {
    pub name: Seq<char>,
    pub digits: OathDigits,
    pub value: u32,
}

/// The digit count that a digit byte declares.
pub open spec fn spec_digits_of_byte(d: u8) -> OathDigits
    recommends
        d == 6 || d == 8,
{
    if d == 6 {
        OathDigits::Six
    } else {
        OathDigits::Eight
    }
}

/// The records read from a response buffer. Each record is a tag byte
/// (not validated), a length field, that many name bytes, two discarded
/// bytes (the response entry's tag and length, structurally fixed in this
/// protocol version), one digit-count byte and a four-byte big-endian code
/// value. An empty buffer is a clean end; any cut-short or malformed record
/// ends the list with the records before it.
pub open spec fn spec_parse(b: Seq<u8>) -> Seq<SpecCredential>
    decreases b.len(),
{
    if b.len() == 0 {
        Seq::empty()
    } else {
        match spec_decode_len(b.skip(1)) {
            Option::None => Seq::empty(),
            Option::Some(lc) => {
                let len = lc.0;
                let after = 1 + lc.1;
                if b.len() < after + len + 7 {
                    Seq::empty()
                } else {
                    let name_bytes = b.subrange(after, after + len);
                    let d = b[after + len + 2];
                    let value = spec_u32_from_be_bytes(
                        b.subrange(after + len + 3, after + len + 7),
                    );
                    if !valid_utf8(name_bytes) {
                        Seq::empty()
                    } else if d == 6 || d == 8 {
                        seq![
                            SpecCredential {
                                name: decode_utf8(name_bytes),
                                digits: spec_digits_of_byte(d),
                                value,
                            },
                        ] + spec_parse(b.skip(after + len + 7))
                    } else {
                        Seq::empty()
                    }
                }
            },
        }
    }
}

/// The model of a vector of parsed credentials.
pub open spec fn creds_model(cs: Seq<OathCredential>) -> Seq<SpecCredential> {
    cs.map_values(
        |c: OathCredential|
            SpecCredential { name: c.name@, digits: c.code.digits, value: c.code.value },
    )
}

/// Relies on String::from_utf8: it succeeds exactly on valid UTF-8 input,
/// and the returned string's characters are the decoding of the bytes.
#[verifier::external_body]
fn bytes_to_string(b: Vec<u8>) -> (r: Option<String>)
    ensures
        r is Some <==> valid_utf8(b@),
        r matches Some(s) ==> s@ == decode_utf8(b@),
{
    match String::from_utf8(b) {
        Ok(s) => Some(s),
        Err(_) => None,
    }
}

/// Reads one record at `pos`, returning the credential and the position
/// after the record, or `None` where the model's record list ends here.
fn parse_one(b: &[u8], pos: usize) -> (r: Option<(OathCredential, usize)>)
    requires
        pos <= b@.len(),
    ensures
        match r {
            Some(p) => {
                &&& pos < p.1 <= b@.len()
                &&& spec_parse(b@.skip(pos as int)) == seq![
                    SpecCredential {
                        name: p.0.name@,
                        digits: p.0.code.digits,
                        value: p.0.code.value,
                    },
                ] + spec_parse(b@.skip(p.1 as int))
            },
            None => spec_parse(b@.skip(pos as int)) == Seq::<SpecCredential>::empty(),
        },
{
    let ghost s = b@.skip(pos as int);
    if pos >= b.len() {
        return None;
    }
    proof {
        assert(s.skip(1) =~= b@.skip(pos as int + 1));
    }
    let (len16, np) = match decode_len(b, pos + 1) {
        None => {
            return None;
        },
        Some(p) => p,
    };
    let len = len16 as usize;
    let ghost after = np - pos as int;
    if b.len() - np < len + 7 {
        return None;
    }
    let name_vec = slice_to_vec(slice_subrange(b, np, np + len));
    proof {
        assert(name_vec@ =~= s.subrange(after, after + len as int));
    }
    let name = match bytes_to_string(name_vec) {
        None => {
            return None;
        },
        Some(nm) => nm,
    };
    // The two bytes at np + len are the response entry's tag and length,
    // discarded without validation.
    let d = b[np + len + 2];
    if d != 6 && d != 8 {
        return None;
    }
    let digits = if d == 6 {
        OathDigits::Six
    } else {
        OathDigits::Eight
    };
    proof {
        assert(s[after + len as int + 2] == b@[np as int + len as int + 2]);
        assert(b@.subrange(np as int + len as int + 3, np as int + len as int + 7) =~= s.subrange(
            after + len as int + 3,
            after + len as int + 7,
        ));
    }
    let value = read_u32_be(b, np + len + 3);
    let np2 = np + len + 7;
    let cred = OathCredential::new(name.as_str(), OathCode { digits, value });
    proof {
        assert(b@.skip(np2 as int) =~= s.skip(after + len as int + 7));
        assert(spec_parse(s) == seq![
            SpecCredential { name: cred.name@, digits: cred.code.digits, value: cred.code.value },
        ] + spec_parse(b@.skip(np2 as int)));
    }
    Some((cred, np2))
}

impl<'a> YubiKey<'a> {
    /// Parses an assembled response buffer into the credentials it frames,
    /// in device order. Parsing never fails: a malformed or cut-short tail
    /// only ends the list.
    pub fn parse_list(&self, b: &[u8]) -> (r: Result<Vec<OathCredential>, String>)
        ensures
            r is Ok,
            r matches Ok(creds) ==> creds_model(creds@) == spec_parse(b@),
    {
        let mut results: Vec<OathCredential> = Vec::new();
        let mut pos: usize = 0;
        proof {
            assert(b@.skip(0) =~= b@);
            assert(creds_model(results@) =~= Seq::<SpecCredential>::empty());
        }
        loop
            invariant
                pos <= b@.len(),
                spec_parse(b@) == creds_model(results@) + spec_parse(b@.skip(pos as int)),
            decreases b@.len() - pos,
        {
            match parse_one(b, pos) {
                None => {
                    proof {
                        assert(creds_model(results@) + Seq::<SpecCredential>::empty()
                            =~= creds_model(results@));
                    }
                    return Ok(results);
                },
                Some(p) => {
                    let (cred, np) = p;
                    let ghost head = SpecCredential {
                        name: cred.name@,
                        digits: cred.code.digits,
                        value: cred.code.value,
                    };
                    results.push(cred);
                    pos = np;
                    proof {
                        assert(creds_model(results@) =~= creds_model(results@.drop_last()) + seq![
                            head,
                        ]);
                        assert(spec_parse(b@) == creds_model(results@) + spec_parse(
                            b@.skip(pos as int),
                        ));
                    }
                },
            }
        }
    }
}

/// A well-formed record followed by anything parses to that record followed
/// by whatever the rest parses to: the records before a malformed tail are
/// always kept.
pub proof fn lemma_parse_record_prepend(
    tag: u8,
    name: Seq<u8>,
    rt: u8,
    rl: u8,
    d: u8,
    value: u32,
    rest: Seq<u8>,
)
    requires
        name.len() <= 0xffff,
        valid_utf8(name),
        d == 6 || d == 8,
    ensures
        spec_parse(
            seq![tag] + spec_len_encoding(name.len()) + name + seq![rt, rl, d]
                + spec_u32_to_be_bytes(value) + rest,
        ) == seq![SpecCredential { name: decode_utf8(name), digits: spec_digits_of_byte(d), value }]
            + spec_parse(rest),
{
    let enc = spec_len_encoding(name.len());
    let b = seq![tag] + enc + name + seq![rt, rl, d] + spec_u32_to_be_bytes(value) + rest;
    let f = enc.len() as int;
    let after = 1 + f;
    let nl = name.len() as int;
    assert(spec_u32_to_be_bytes(value).len() == 4);
    assert(b.skip(1) =~= enc + (name + seq![rt, rl, d] + spec_u32_to_be_bytes(value) + rest));
    lemma_decode_of_len_encoding(
        name.len(),
        name + seq![rt, rl, d] + spec_u32_to_be_bytes(value) + rest,
    );
    assert(spec_decode_len(b.skip(1)) == Some((nl, f)));
    assert(b.len() == after + nl + 7 + rest.len());
    assert(b.subrange(after, after + nl) =~= name);
    assert(b[after + nl + 2] == d);
    assert(b.subrange(after + nl + 3, after + nl + 7) =~= spec_u32_to_be_bytes(value));
    lemma_u32_be_bytes_round_trip(value);
    assert(b.skip(after + nl + 7) =~= rest);
}

/// A buffer that ends inside a record's name — the declared name length
/// exceeds what remains — parses to no records at all.
pub proof fn lemma_parse_stops_at_truncated_name(t: Seq<u8>)
    requires
        t.len() > 0,
        spec_decode_len(t.skip(1)) matches Some(lc) && t.len() < 1 + lc.1 + lc.0,
    ensures
        spec_parse(t) == Seq::<SpecCredential>::empty(),
{
}

} // verus!
