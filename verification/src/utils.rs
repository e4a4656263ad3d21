//! Small helpers shared across the crate.

use vstd::prelude::*;
use crate::error::SyphonError;
use vstd::string::StringSliceAdditionalSpecFns;

pub mod pixel_format;

verus! {

/// The four-character code that packs `a`, `b`, `c`, `d` into a `u32`,
/// `a` in the most significant byte.
pub open spec fn spec_fourcc(a: u8, b: u8, c: u8, d: u8) -> int {
    a * 0x100_0000 + b * 0x1_0000 + c * 0x100 + d
}

/// Create a pixel format fourcc code from characters.
pub fn fourcc(a: u8, b: u8, c: u8, d: u8) -> (code: u32)
    ensures
        code == spec_fourcc(a, b, c, d),
        code == ((a as u32) << 24u32) | ((b as u32) << 16u32) | ((c as u32) << 8u32) | (d as u32),
{
    let code = ((a as u32) << 24u32) | ((b as u32) << 16u32) | ((c as u32) << 8u32) | (d as u32);
    assert(((a as u32) << 24u32) | ((b as u32) << 16u32) | ((c as u32) << 8u32) | (d as u32)
        == a * 0x100_0000 + b * 0x1_0000 + c * 0x100 + d) by (bit_vector);
    code
}

} // verus!

verus! {

/// The character of a decimal digit.
pub open spec fn digit_char(d: nat) -> char {
    (48 + d) as char
}

/// The decimal representation of `n`, most significant digit first, with no
/// leading zeros (`0` is written as a single `'0'`).
pub open spec fn decimal(n: nat) -> Seq<char>
    decreases n,
{
    if n < 10 {
        seq![digit_char(n)]
    } else {
        decimal(n / 10).push(digit_char(n % 10))
    }
}

fn digit_text(d: u64) -> (s: String)
    requires
        d < 10,
    ensures
        s@ == seq![digit_char(d as nat)],
{
    proof {
        reveal_strlit("0");
        reveal_strlit("1");
        reveal_strlit("2");
        reveal_strlit("3");
        reveal_strlit("4");
        reveal_strlit("5");
        reveal_strlit("6");
        reveal_strlit("7");
        reveal_strlit("8");
        reveal_strlit("9");
    }
    let s = if d == 0 {
        "0"
    } else if d == 1 {
        "1"
    } else if d == 2 {
        "2"
    } else if d == 3 {
        "3"
    } else if d == 4 {
        "4"
    } else if d == 5 {
        "5"
    } else if d == 6 {
        "6"
    } else if d == 7 {
        "7"
    } else if d == 8 {
        "8"
    } else {
        "9"
    };
    s.to_owned()
}

/// Writes `n` in decimal, as `format!("{}", n)` does.
pub fn decimal_text(n: u64) -> (s: String)
    ensures
        s@ == decimal(n as nat),
    decreases n,
{
    if n < 10 {
        digit_text(n)
    } else {
        let mut s = decimal_text(n / 10);
        let last = digit_text(n % 10);
        s.append(last.as_str());
        s
    }
}

} // verus!

verus! {

/// Index of the first zero byte of `bytes` at or after `from`, if any.
pub open spec fn first_zero_from(bytes: Seq<u8>, from: int) -> Option<int>
    decreases bytes.len() - from,
{
    if from < 0 || from >= bytes.len() {
        None
    } else if bytes[from] == 0 {
        Some(from)
    } else {
        first_zero_from(bytes, from + 1)
    }
}

/// The search for a zero byte from `from` finds none exactly when no byte
/// from there on is 0, and what it finds is a 0 byte with no 0 byte between
/// `from` and it.
pub proof fn lemma_first_zero_is_first_nul(bytes: Seq<u8>, from: int)
    requires
        0 <= from <= bytes.len(),
    ensures
        first_zero_from(bytes, from) is None <==> (forall|i: int| from <= i < bytes.len() ==> bytes[i] != 0),
        first_zero_from(bytes, from) matches Some(p) ==> from <= p < bytes.len() && bytes[p] == 0
            && forall|j: int| from <= j < p ==> bytes[j] != 0,
    decreases bytes.len() - from,
{
    if from < bytes.len() {
        lemma_first_zero_is_first_nul(bytes, from + 1);
    }
}

/// The text of the error raised when a string holding a NUL byte at byte
/// offset `pos` is handed to Objective-C.
pub open spec fn nul_byte_text(pos: nat) -> Seq<char> {
    "Invalid string: nul byte found in provided data at position: "@ + decimal(pos)
}

/// Checks that `s` can be handed to Objective-C as a C string, that is that
/// its UTF-8 bytes hold no NUL. The error names the byte offset of the first
/// NUL, as the conversion to a C string reports it.
pub fn check_objc_string(s: &str) -> (r: Result<(), SyphonError>)
    ensures
        r is Ok <==> (forall|i: int| 0 <= i < s.spec_bytes().len() ==> s.spec_bytes()[i] != 0),
        r is Err ==> exists|pos: int| {
            &&& 0 <= pos < s.spec_bytes().len()
            &&& s.spec_bytes()[pos] == 0
            &&& (forall|j: int| 0 <= j < pos ==> s.spec_bytes()[j] != 0)
            &&& r matches Err(SyphonError::InvalidParameter(msg)) && msg@ == nul_byte_text(pos as nat)
        },
        match first_zero_from(s.spec_bytes(), 0) {
            None => r is Ok,
            Some(pos) => r matches Err(SyphonError::InvalidParameter(msg)) && msg@ == nul_byte_text(pos as nat),
        },
{
    proof {
        lemma_first_zero_is_first_nul(s.spec_bytes(), 0);
    }
    let bytes = s.as_bytes();
    let mut i: usize = 0;
    while i < bytes.len()
        invariant
            bytes@ == s.spec_bytes(),
            i <= bytes@.len(),
            first_zero_from(bytes@, 0) == first_zero_from(bytes@, i as int),
        decreases bytes@.len() - i,
    {
        if bytes[i] == 0 {
            let mut msg = "Invalid string: nul byte found in provided data at position: ".to_owned();
            let digits = decimal_text(i as u64);
            msg.append(digits.as_str());
            let r = Err(SyphonError::InvalidParameter(msg));
            assert(first_zero_from(bytes@, 0) == Some(i as int));
            proof {
                lemma_first_zero_is_first_nul(bytes@, 0);
            }
            assert({
                &&& 0 <= i < s.spec_bytes().len()
                &&& s.spec_bytes()[i as int] == 0
                &&& (forall|j: int| 0 <= j < i ==> s.spec_bytes()[j] != 0)
                &&& r matches Err(SyphonError::InvalidParameter(m)) && m@ == nul_byte_text(i as nat)
            });
            return r;
        }
        i = i + 1;
    }
    Ok(())
}

} // verus!
