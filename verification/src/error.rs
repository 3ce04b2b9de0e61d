use vstd::prelude::*;
use vstd::string::*;
use crate::decimal::{decimal, signed_decimal, push_decimal, push_signed_decimal};

verus! {

/// Declares `std::str::Utf8Error`, the error of a failed UTF-8 decoding.
#[verifier::external_type_specification]
#[verifier::external_body]
pub struct ExUtf8Error(std::str::Utf8Error);

/// The largest value of a C `int`.
pub open spec fn c_int_max() -> u64 {
    0x7fff_ffff
}

/// Whether `value` fits in a C `int`.
pub open spec fn fits(value: u64) -> bool {
    value <= c_int_max()
}

/// A value fits in a C `int` exactly when it is at most `i32::MAX`.
pub proof fn lemma_fits_is_i32_range(value: u64)
    ensures
        fits(value) <==> value <= i32::MAX,
{
}

/// A string that holds a zero byte where the C string would end.
///
/// It records the bytes that were rejected and the index of the first zero
/// byte among them.
#[derive(Debug, PartialEq, Eq)]
pub struct NulError {
    position: usize,
    bytes: Vec<u8>,
}

/// Whether `b` holds a zero byte.
pub open spec fn has_nul(b: Seq<u8>) -> bool {
    exists|i: int| 0 <= i < b.len() && b[i] == 0u8
}

/// Whether `p` is the index of the first zero byte of `b`.
pub open spec fn is_first_nul(b: Seq<u8>, p: int) -> bool {
    &&& 0 <= p < b.len()
    &&& b[p] == 0u8
    &&& forall|j: int| 0 <= j < p ==> b[j] != 0u8
}

impl NulError {
    /// The index of the first zero byte.
    pub closed spec fn position(&self) -> nat {
        self.position as nat
    }

    /// The rejected bytes.
    pub closed spec fn bytes(&self) -> Seq<u8> {
        self.bytes@
    }

    /// The error for `bytes`, which hold a zero byte first at `position`.
    pub fn new(position: usize, bytes: Vec<u8>) -> (r: NulError)
        ensures
            r.position() == position,
            r.bytes() == bytes@,
    {
        NulError { position, bytes }
    }

    /// The index of the first zero byte in the rejected bytes.
    pub fn nul_position(&self) -> (r: usize)
        ensures
            r == self.position(),
    {
        self.position
    }

    /// The rejected bytes.
    pub fn into_vec(self) -> (r: Vec<u8>)
        ensures
            r@ == self.bytes(),
    {
        self.bytes
    }

    /// The text of this error.
    pub fn message(&self) -> (r: String)
        ensures
            r@ == "nul byte found in provided data at position: "@ + decimal(self.position()),
    {
        let mut s = String::from_str("nul byte found in provided data at position: ");
        push_decimal(&mut s, self.position as u64);
        s
    }
}

/// What can go wrong between a Rust caller and the CDK library.
#[derive(Debug)]
pub enum Error {
    /// CDK returned a null pointer where an object was expected.
    NullHandle(&'static str),
    /// A string passed to CDK holds a zero byte.
    InteriorNul(NulError),
    /// A value does not fit in a C `int`.
    ValueOutOfRange(&'static str, u64),
    /// CDK returned text that is not UTF-8.
    InvalidUtf8(std::str::Utf8Error),
    /// CDK returned a negative result where an index or success was expected.
    InvalidActivation(i32),
    /// Two arguments that must have the same length do not: name, expected, actual.
    LengthMismatch(&'static str, usize, usize),
}

/// The text of an error, for the variants whose text this library writes.
pub open spec fn message_text(e: Error) -> Seq<char> {
    match e {
        Error::NullHandle(name) => "CDK returned a null "@ + name@ + " handle"@,
        Error::InteriorNul(n) => "nul byte found in provided data at position: "@ + decimal(n.position()),
        Error::ValueOutOfRange(name, value) =>
            name@ + " value "@ + decimal(value as nat) + " exceeds the C integer range"@,
        Error::InvalidUtf8(_) => Seq::empty(),
        Error::InvalidActivation(value) =>
            "CDK returned an invalid activation value "@ + signed_decimal(value as int),
        Error::LengthMismatch(name, expected, actual) =>
            name@ + " has length "@ + decimal(actual as nat) + ", expected "@ + decimal(expected as nat),
    }
}

impl Error {
    /// The human-readable text of this error.
    pub fn message(&self) -> (r: String)
        ensures
            !(self is InvalidUtf8) ==> r@ == message_text(*self),
            self matches Error::InvalidUtf8(u) ==> to_string_from_display_ensures::<std::str::Utf8Error>(&u, r),
    {
        match self {
            Error::NullHandle(name) => {
                let mut s = String::from_str("CDK returned a null ");
                s.append(name);
                s.append(" handle");
                s
            },
            Error::InteriorNul(n) => n.message(),
            Error::ValueOutOfRange(name, value) => {
                let mut s = String::from_str(name);
                s.append(" value ");
                push_decimal(&mut s, *value);
                s.append(" exceeds the C integer range");
                s
            },
            Error::InvalidUtf8(u) => u.to_string(),
            Error::InvalidActivation(value) => {
                let mut s = String::from_str("CDK returned an invalid activation value ");
                push_signed_decimal(&mut s, *value as i64);
                s
            },
            Error::LengthMismatch(name, expected, actual) => {
                let mut s = String::from_str(name);
                s.append(" has length ");
                push_decimal(&mut s, *actual as u64);
                s.append(", expected ");
                push_decimal(&mut s, *expected as u64);
                s
            },
        }
    }
}

impl From<NulError> for Error {
    fn from(error: NulError) -> (r: Error)
        ensures
            r == Error::InteriorNul(error),
    {
        Error::InteriorNul(error)
    }
}

impl vstd::std_specs::convert::FromSpecImpl<NulError> for Error {
    open spec fn obeys_from_spec() -> bool {
        true
    }

    open spec fn from_spec(v: NulError) -> Error {
        Error::InteriorNul(v)
    }
}

impl From<std::str::Utf8Error> for Error {
    fn from(error: std::str::Utf8Error) -> (r: Error)
        ensures
            r == Error::InvalidUtf8(error),
    {
        Error::InvalidUtf8(error)
    }
}

impl vstd::std_specs::convert::FromSpecImpl<std::str::Utf8Error> for Error {
    open spec fn obeys_from_spec() -> bool {
        true
    }

    open spec fn from_spec(v: std::str::Utf8Error) -> Error {
        Error::InvalidUtf8(v)
    }
}

/// Converts `value` to a C `int`, or names it in the error when it does not fit.
pub fn checked_c_int(value: u64, name: &'static str) -> (r: Result<i32, Error>)
    ensures
        value <= c_int_max() ==> r == Ok::<i32, Error>(value as i32),
        value > c_int_max() ==> r == Err::<i32, Error>(Error::ValueOutOfRange(name, value)),
{
    if value <= 0x7fff_ffff {
        Ok(value as i32)
    } else {
        Err(Error::ValueOutOfRange(name, value))
    }
}

} // verus!
