//! The tag-length-value framing of the OATH protocol: a one-byte tag, a
//! short- or extended-form length, and the value bytes.

use vstd::prelude::*;
use crate::endian::spec_u16_to_be_bytes;
use crate::endian::push_u16_be;

verus! {

/// The single-byte tags of the protocol's TLV records.
#[derive(Clone, Copy, Debug, PartialEq, Eq, Structural)]
pub enum Tag {
    Name,
    NameList,
    Key,
    Challenge,
    Response,
    TruncatedResponse,
    Hotp,
    Property,
    Version,
    Imf,
    Algorithm,
    Touch,
}

impl Tag {
    /// The wire byte of this tag.
    pub open spec fn spec_byte(self) -> u8 {
        match self {
            Tag::Name => 0x71,
            Tag::NameList => 0x72,
            Tag::Key => 0x73,
            Tag::Challenge => 0x74,
            Tag::Response => 0x75,
            Tag::TruncatedResponse => 0x76,
            Tag::Hotp => 0x77,
            Tag::Property => 0x78,
            Tag::Version => 0x79,
            Tag::Imf => 0x7a,
            Tag::Algorithm => 0x7b,
            Tag::Touch => 0x7c,
        }
    }

    /// The wire byte of this tag.
    pub fn byte(self) -> (b: u8)
        ensures
            b == self.spec_byte(),
    {
        match self {
            Tag::Name => 0x71,
            Tag::NameList => 0x72,
            Tag::Key => 0x73,
            Tag::Challenge => 0x74,
            Tag::Response => 0x75,
            Tag::TruncatedResponse => 0x76,
            Tag::Hotp => 0x77,
            Tag::Property => 0x78,
            Tag::Version => 0x79,
            Tag::Imf => 0x7a,
            Tag::Algorithm => 0x7b,
            Tag::Touch => 0x7c,
        }
    }
}

/// The length field for a value of `len` bytes: one byte below 0x80, the
/// marker 0x81 and one byte below 0xff, and the marker 0x82 with a two-byte
/// big-endian length otherwise. The 0x80 boundary for the one-byte form and
/// the 0xff boundary for the two-byte form are both deliberate: they mirror
/// the encoder of the device firmware, not a generic BER length.
pub open spec fn spec_len_encoding(len: nat) -> Seq<u8>
    recommends
        len <= 0xffff,
{
    if len < 0x80 {
        seq![len as u8]
    } else if len < 0xff {
        seq![0x81u8, len as u8]
    } else {
        seq![0x82u8] + spec_u16_to_be_bytes(len as u16)
    }
}

/// A whole TLV record: tag byte, length field, value bytes.
pub open spec fn spec_tlv(tag: u8, value: Seq<u8>) -> Seq<u8>
    recommends
        value.len() <= 0xffff,
{
    seq![tag] + spec_len_encoding(value.len()) + value
}

/// The length read from the front of `s`, with the number of bytes the
/// length field occupies: a first byte up to 0x80 is the length itself;
/// 0x81 takes the next byte and 0x82 the next two, big-endian; any other
/// first byte is an unsupported form and decoding stops.
pub open spec fn spec_decode_len(s: Seq<u8>) -> Option<(int, int)> {
    if s.len() == 0 {
        None
    } else if s[0] <= 0x80 {
        Some((s[0] as int, 1int))
    } else if s[0] == 0x81 {
        if s.len() >= 2 {
            Some((s[1] as int, 2int))
        } else {
            None
        }
    } else if s[0] == 0x82 {
        if s.len() >= 3 {
            Some(((s[1] as int) * 256 + (s[2] as int), 3int))
        } else {
            None
        }
    } else {
        None
    }
}

/// Encodes a TLV record: the tag byte, the length of `value` in short or
/// extended form, then the value itself.
pub fn to_tlv(tag: Tag, value: &[u8]) -> (r: Vec<u8>)
    requires
        value@.len() <= 0xffff,
    ensures
        r@ == spec_tlv(tag.spec_byte(), value@),
{
    let mut buf: Vec<u8> = Vec::new();
    buf.push(tag.byte());
    let len = value.len();
    if len < 0x80 {
        buf.push(len as u8);
    } else if len < 0xff {
        buf.push(0x81);
        buf.push(len as u8);
    } else {
        buf.push(0x82);
        push_u16_be(&mut buf, len as u16);
    }
    proof {
        assert(buf@ =~= seq![tag.spec_byte()] + spec_len_encoding(value@.len()));
    }
    let mut i: usize = 0;
    while i < value.len()
        invariant
            i <= value@.len(),
            buf@ == seq![tag.spec_byte()] + spec_len_encoding(value@.len()) + value@.take(i as int),
        decreases value@.len() - i,
    {
        buf.push(value[i]);
        i = i + 1;
        proof {
            assert(buf@ =~= seq![tag.spec_byte()] + spec_len_encoding(value@.len()) + value@.take(
                i as int,
            ));
        }
    }
    proof {
        assert(value@.take(value@.len() as int) =~= value@);
        assert(buf@ =~= spec_tlv(tag.spec_byte(), value@));
    }
    buf
}

/// Decodes the length field at `pos` in `b`, returning the length and the
/// position of the first byte after the field; `None` where the buffer ends
/// inside the field or the form marker is unsupported.
pub fn decode_len(b: &[u8], pos: usize) -> (r: Option<(u16, usize)>)
    requires
        pos <= b@.len(),
    ensures
        match r {
            Some(p) => {
                &&& spec_decode_len(b@.skip(pos as int)) == Some(
                    (p.0 as int, p.1 - pos as int),
                )
                &&& pos < p.1 <= b@.len()
            },
            None => spec_decode_len(b@.skip(pos as int)) is None,
        },
{
    let ghost s = b@.skip(pos as int);
    if pos >= b.len() {
        return None;
    }
    let first = b[pos];
    proof {
        assert(s[0] == b@[pos as int]);
    }
    if first <= 0x80 {
        Some((first as u16, pos + 1))
    } else if first == 0x81 {
        if b.len() - pos >= 2 {
            proof {
                assert(s[1] == b@[pos as int + 1]);
            }
            Some((b[pos + 1] as u16, pos + 2))
        } else {
            None
        }
    } else if first == 0x82 {
        if b.len() - pos >= 3 {
            proof {
                assert(s[1] == b@[pos as int + 1]);
                assert(s[2] == b@[pos as int + 2]);
            }
            Some(((b[pos + 1] as u16) * 256 + (b[pos + 2] as u16), pos + 3))
        } else {
            None
        }
    } else {
        None
    }
}

/// Decoding the length field of an encoded record, at whatever stands after
/// it, reads back exactly the encoded length and consumes exactly the field.
pub proof fn lemma_decode_of_len_encoding(len: nat, rest: Seq<u8>)
    requires
        len <= 0xffff,
    ensures
        spec_decode_len(spec_len_encoding(len) + rest) == Some(
            (len as int, spec_len_encoding(len).len() as int),
        ),
{
    let s = spec_len_encoding(len) + rest;
    if len < 0x80 {
        assert(s[0] == len as u8);
    } else if len < 0xff {
        assert(s[0] == 0x81u8 && s[1] == len as u8);
    } else {
        let x = len as u16;
        assert(s[0] == 0x82u8 && s[1] == ((x >> 8) & 0xff) as u8 && s[2] == (x & 0xff) as u8);
        assert((((x >> 8) & 0xff) as u8 as int) * 256 + ((x & 0xff) as u8 as int) == x as int)
            by (bit_vector);
    }
}

/// Round trip of the TLV codec: in an encoded record the first byte is the
/// tag, the length field decodes to the value's length, and the bytes after
/// the length field are exactly the value.
pub proof fn lemma_tlv_round_trip(tag: u8, value: Seq<u8>)
    requires
        value.len() <= 0xffff,
    ensures
        ({
            let enc = spec_tlv(tag, value);
            let field = spec_len_encoding(value.len()).len() as int;
            &&& enc[0] == tag
            &&& spec_decode_len(enc.skip(1)) == Some((value.len() as int, field))
            &&& enc.skip(1 + field) == value
        }),
{
    let enc = spec_tlv(tag, value);
    let field = spec_len_encoding(value.len()).len() as int;
    assert(enc.skip(1) =~= spec_len_encoding(value.len()) + value);
    lemma_decode_of_len_encoding(value.len(), value);
    assert(enc.skip(1 + field) =~= value);
}

} // verus!
