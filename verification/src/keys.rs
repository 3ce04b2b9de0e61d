use vstd::prelude::*;

verus! {

/// The low byte of a code point or C integer.
pub open spec fn low_byte(v: int) -> u8 {
    (v % 256) as u8
}

/// The C `char` (a signed byte) with the same bits as `b`.
pub open spec fn signed_byte(b: u8) -> i8 {
    if b < 128 { b as i8 } else { (b - 256) as i8 }
}

/// The C `char` that stands for `key`: the low byte of its code point.
pub fn key_code(key: char) -> (r: i8)
    ensures
        r == signed_byte(low_byte(key as int)),
{
    let k: u32 = key as u32;
    let b: u8 = (k % 256) as u8;
    if b < 128 { b as i8 } else { ((b as i16) - 256) as i8 }
}

/// The character for the byte a CDK call returned: the low byte of `code`.
pub fn key_char(code: i32) -> (r: char)
    ensures
        r == low_byte(code as int) as char,
{
    let m: i32 = code % 256;
    let b: u8 = if m < 0 { (m + 256) as u8 } else { m as u8 };
    b as char
}

/// A key whose code point is below 256 comes back from its own C `char`:
/// decoding the byte `key_code` gives for it yields the key again.
pub proof fn lemma_key_round_trip(key: char)
    requires
        (key as u32) < 256,
    ensures
        low_byte(signed_byte(low_byte(key as int)) as int) as char == key,
{
}

} // verus!
