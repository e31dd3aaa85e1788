//! Credentials as the device reports them, and the rendering of a numeric
//! code as the fixed-width decimal string a user sees.

use vstd::prelude::*;
use vstd::string::StrSliceExecFns;
use vstd::string::StringExecFns;

verus! {

/// The bit masks that split a credential's combined algorithm/type byte.
#[derive(Clone, Copy, Debug, PartialEq, Eq, Structural)]
pub enum Mask {
    Algo,
    Type,
}

impl Mask {
    /// The mask's byte value.
    pub open spec fn spec_byte(self) -> u8 {
        match self {
            Mask::Algo => 0x0f,
            Mask::Type => 0xf0,
        }
    }

    /// The mask's byte value.
    pub fn byte(self) -> (b: u8)
        ensures
            b == self.spec_byte(),
    {
        match self {
            Mask::Algo => 0x0f,
            Mask::Type => 0xf0,
        }
    }
}

/// The hash algorithms a credential may use.
#[derive(Clone, Copy, Debug, PartialEq, Eq, Structural)]
pub enum OathAlgo {
    Sha1,
    Sha256,
}

impl OathAlgo {
    /// The algorithm's wire value.
    pub open spec fn spec_byte(self) -> u8 {
        match self {
            OathAlgo::Sha1 => 0x01,
            OathAlgo::Sha256 => 0x02,
        }
    }

    /// The algorithm's wire value.
    pub fn byte(self) -> (b: u8)
        ensures
            b == self.spec_byte(),
    {
        match self {
            OathAlgo::Sha1 => 0x01,
            OathAlgo::Sha256 => 0x02,
        }
    }
}

/// The kinds of one-time code a credential may be: time-based or counter-based.
#[derive(Clone, Copy, Debug, PartialEq, Eq, Structural)]
pub enum OathType {
    Totp,
    Hotp,
}

impl OathType {
    /// The kind's wire value.
    pub open spec fn spec_byte(self) -> u8 {
        match self {
            OathType::Totp => 0x10,
            OathType::Hotp => 0x20,
        }
    }

    /// The kind's wire value.
    pub fn byte(self) -> (b: u8)
        ensures
            b == self.spec_byte(),
    {
        match self {
            OathType::Totp => 0x10,
            OathType::Hotp => 0x20,
        }
    }
}

/// How many decimal digits of the code the device was asked to keep.
#[derive(Clone, Copy, Debug, PartialEq, Eq, Structural)]
pub enum OathDigits {
    Six,
    Eight,
}

/// A one-time code: its digit count and its raw numeric value.
#[derive(Debug, PartialEq, Eq)]
pub struct OathCode {
    pub digits: OathDigits,
    pub value: u32,
}

/// A credential as one poll of the device reports it: its name and the code
/// the device computed for it.
#[derive(Debug, PartialEq, Eq)]
pub struct OathCredential {
    pub name: String,
    pub code: OathCode,
}

impl OathCredential {
    /// A credential with the given name and code.
    pub fn new(name: &str, code: OathCode) -> (r: OathCredential)
        ensures
            r.name@ == name@,
            r.code == code,
    {
        OathCredential { name: name.to_owned(), code }
    }
}

/// The width in digits that a digit count asks for.
pub open spec fn spec_width(digits: OathDigits) -> int {
    match digits {
        OathDigits::Six => 6,
        OathDigits::Eight => 8,
    }
}

/// The character of one decimal digit.
pub open spec fn spec_digit_char(d: int) -> char
    recommends
        0 <= d < 10,
{
    ((48 + d) as u8) as char
}

/// The decimal representation of a number, most significant digit first,
/// with no leading zeros (a lone zero for zero itself).
pub open spec fn spec_decimal(n: int) -> Seq<char>
    recommends
        n >= 0,
    decreases n,
{
    if n <= 9 {
        seq![spec_digit_char(n)]
    } else {
        spec_decimal(n / 10).push(spec_digit_char(n % 10))
    }
}

/// A code rendered at a fixed width: the decimal representation, left-padded
/// with zeros up to the width, or cut to its rightmost `w` digits where it
/// is wider.
pub open spec fn spec_format(n: int, w: int) -> Seq<char>
    recommends
        n >= 0,
        w >= 1,
{
    let dec = spec_decimal(n);
    if dec.len() <= w {
        Seq::new((w - dec.len()) as nat, |i: int| '0') + dec
    } else {
        dec.skip(dec.len() - w)
    }
}

/// Ten to the `k`th power.
pub open spec fn pow10(k: nat) -> int
    decreases k,
{
    if k == 0 {
        1
    } else {
        10 * pow10((k - 1) as nat)
    }
}

/// A number below ten to the `k`th has at most `k` decimal digits.
pub proof fn lemma_decimal_len_bound(n: int, k: nat)
    requires
        0 <= n,
        n < pow10(k),
        k >= 1,
    ensures
        spec_decimal(n).len() <= k,
    decreases k,
{
    if n <= 9 {
    } else {
        assert(pow10(k) == 10 * pow10((k - 1) as nat));
        assert(n / 10 < pow10((k - 1) as nat)) by (nonlinear_arith)
            requires
                n >= 10,
                pow10((k - 1) as nat) >= 1,
                n < 10 * pow10((k - 1) as nat),
        ;
        assert(k >= 2) by {
            if k == 1 {
                assert(pow10(1nat) == 10);
            }
        }
        lemma_decimal_len_bound(n / 10, (k - 1) as nat);
    }
}

/// The one-character string of a decimal digit.
fn digit_str(d: u8) -> (s: &'static str)
    requires
        d < 10,
    ensures
        s@ == seq![spec_digit_char(d as int)],
{
    proof {
        reveal_strlit("0");
        reveal_strlit("1");
        reveal_strlit("2");
        reveal_strlit("3");
        reveal_strlit("4");
        reveal_strlit("5");
        reveal_strlit("6");
        reveal_strlit("7");
        reveal_strlit("8");
        reveal_strlit("9");
        assert("0"@ =~= seq![spec_digit_char(0)]);
        assert("1"@ =~= seq![spec_digit_char(1)]);
        assert("2"@ =~= seq![spec_digit_char(2)]);
        assert("3"@ =~= seq![spec_digit_char(3)]);
        assert("4"@ =~= seq![spec_digit_char(4)]);
        assert("5"@ =~= seq![spec_digit_char(5)]);
        assert("6"@ =~= seq![spec_digit_char(6)]);
        assert("7"@ =~= seq![spec_digit_char(7)]);
        assert("8"@ =~= seq![spec_digit_char(8)]);
        assert("9"@ =~= seq![spec_digit_char(9)]);
    }
    if d == 0 {
        "0"
    } else if d == 1 {
        "1"
    } else if d == 2 {
        "2"
    } else if d == 3 {
        "3"
    } else if d == 4 {
        "4"
    } else if d == 5 {
        "5"
    } else if d == 6 {
        "6"
    } else if d == 7 {
        "7"
    } else if d == 8 {
        "8"
    } else {
        "9"
    }
}

/// The decimal string of a number, with the count of its digits.
fn u32_to_decimal(n: u32) -> (r: (String, usize))
    ensures
        r.0@ == spec_decimal(n as int),
        r.1 == spec_decimal(n as int).len(),
        1 <= r.1 <= 10,
    decreases n,
{
    proof {
        reveal_with_fuel(pow10, 11);
        lemma_decimal_len_bound(n as int, 10);
    }
    if n <= 9 {
        (String::from_str(digit_str(n as u8)), 1)
    } else {
        let (mut s, c) = u32_to_decimal(n / 10);
        s.append(digit_str((n % 10) as u8));
        proof {
            assert(s@ =~= spec_decimal(n as int));
        }
        (s, c + 1)
    }
}

/// Renders a code at its digit count: the decimal value, left-padded with
/// zeros to exactly six or eight characters, or its rightmost six or eight
/// digits where the value is wider.
pub fn format_code(code: u32, digits: OathDigits) -> (r: String)
    ensures
        r@ == spec_format(code as int, spec_width(digits)),
        r@.len() == spec_width(digits),
{
    let w: usize = match digits {
        OathDigits::Six => 6,
        OathDigits::Eight => 8,
    };
    let (dec, c) = u32_to_decimal(code);
    if c <= w {
        let mut r = String::new();
        let mut j: usize = 0;
        proof {
            assert(r@ =~= Seq::new(0nat, |i: int| '0'));
        }
        while j < w - c
            invariant
                c <= w,
                j <= w - c,
                r@ == Seq::new(j as nat, |i: int| '0'),
            decreases w - c - j,
        {
            r.append("0");
            j = j + 1;
            proof {
                reveal_strlit("0");
                assert(r@ =~= Seq::new(j as nat, |i: int| '0'));
            }
        }
        r.append(dec.as_str());
        proof {
            assert(r@ =~= spec_format(code as int, spec_width(digits)));
        }
        r
    } else {
        let s = dec.as_str().substring_char(c - w, c);
        let r = s.to_owned();
        proof {
            assert(r@ =~= spec_format(code as int, spec_width(digits)));
        }
        r
    }
}

} // verus!
