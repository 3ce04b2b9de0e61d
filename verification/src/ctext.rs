use vstd::prelude::*;
use vstd::string::*;
use vstd::utf8::*;
use crate::error::{Error, NulError, has_nul, is_first_nul, checked_c_int, c_int_max};

verus! {

/// The bytes of each string of a list.
pub open spec fn texts_bytes(values: Seq<&str>) -> Seq<Seq<u8>> {
    values.map_values(|s: &str| s.spec_bytes())
}

/// Whether a string converts to a C string: it holds no zero byte.
pub open spec fn nul_free(s: &str) -> bool {
    !has_nul(s.spec_bytes())
}

proof fn lemma_scalar_has_nul(c: char)
    ensures
        has_nul(encode_scalar(c as u32)) <==> c == '\0',
{
    broadcast use char_is_scalar;
    let s = c as u32;
    let b = encode_scalar(s);
    if has_width_1_encoding(s) {
        assert(((s & 0x7F) as u8 == 0u8) <==> s == 0) by (bit_vector)
            requires
                s <= 0x7F,
        ;
        assert(b[0] == leading_byte_width_1(s));
        if c == '\0' {
            assert(b[0] == 0u8);
        }
    } else if has_width_2_encoding(s) {
        assert((0xC0u8 | ((s >> 6) & 0x1F) as u8) != 0u8) by (bit_vector);
        assert((0x80u8 | (s & 0x3F) as u8) != 0u8) by (bit_vector);
        assert(b[0] != 0u8 && b[1] != 0u8);
    } else if has_width_3_encoding(s) {
        assert((0xE0u8 | ((s >> 12) & 0x0F) as u8) != 0u8) by (bit_vector);
        assert((0x80u8 | ((s >> 6) & 0x3F) as u8) != 0u8) by (bit_vector);
        assert((0x80u8 | (s & 0x3F) as u8) != 0u8) by (bit_vector);
        assert(b[0] != 0u8 && b[1] != 0u8 && b[2] != 0u8);
    } else {
        assert((0xF0u8 | ((s >> 18) & 0x7) as u8) != 0u8) by (bit_vector);
        assert((0x80u8 | ((s >> 12) & 0x3F) as u8) != 0u8) by (bit_vector);
        assert((0x80u8 | ((s >> 6) & 0x3F) as u8) != 0u8) by (bit_vector);
        assert((0x80u8 | (s & 0x3F) as u8) != 0u8) by (bit_vector);
        assert(b[0] != 0u8 && b[1] != 0u8 && b[2] != 0u8 && b[3] != 0u8);
    }
}

/// The UTF-8 bytes of some characters hold a zero byte exactly when the
/// characters hold the NUL character.
pub proof fn lemma_encoded_nul(chars: Seq<char>)
    ensures
        has_nul(encode_utf8(chars)) <==> chars.contains('\0'),
    decreases chars.len(),
{
    if chars.len() > 0 {
        let head = encode_scalar(chars[0] as u32);
        let rest = encode_utf8(chars.drop_first());
        lemma_scalar_has_nul(chars[0]);
        lemma_encoded_nul(chars.drop_first());
        assert(encode_utf8(chars) == head + rest);
        if has_nul(head + rest) {
            let i = choose|i: int| 0 <= i < (head + rest).len() && (head + rest)[i] == 0u8;
            if i < head.len() {
                assert(head[i] == 0u8);
            } else {
                assert(rest[i - head.len()] == 0u8);
            }
        }
        if has_nul(head) {
            let i = choose|i: int| 0 <= i < head.len() && head[i] == 0u8;
            assert((head + rest)[i] == 0u8);
        }
        if has_nul(rest) {
            let i = choose|i: int| 0 <= i < rest.len() && rest[i] == 0u8;
            assert((head + rest)[head.len() + i] == 0u8);
        }
        if chars.contains('\0') {
            let k = choose|k: int| 0 <= k < chars.len() && chars[k] == '\0';
            if k > 0 {
                assert(chars.drop_first()[k - 1] == '\0');
            }
        }
        if chars.drop_first().contains('\0') {
            let k = choose|k: int| 0 <= k < chars.drop_first().len() && chars.drop_first()[k] == '\0';
            assert(chars[k + 1] == '\0');
        }
    }
}

/// A string converts to a C string exactly when it holds no NUL character.
pub proof fn lemma_nul_free_iff_no_nul_char(s: &str)
    ensures
        nul_free(s) <==> !s@.contains('\0'),
{
    lemma_encoded_nul(s@);
}

/// Whether some string of a list holds a zero byte.
pub open spec fn any_nul(values: Seq<&str>) -> bool {
    exists|i: int| 0 <= i < values.len() && has_nul(values[i].spec_bytes())
}

/// The bytes of a C string, without its terminating zero: they hold no zero byte.
#[derive(Debug)]
pub struct CText {
    bytes: Vec<u8>,
}

impl View for CText {
    type V = Seq<u8>;

    closed spec fn view(&self) -> Seq<u8> {
        self.bytes@
    }
}

impl CText {
    #[verifier::type_invariant]
    closed spec fn inv(self) -> bool {
        !has_nul(self.bytes@)
    }

    /// The C string for `s`, or the position of the first zero byte in it.
    pub fn new(s: &str) -> (r: Result<CText, NulError>)
        ensures
            r is Ok <==> !has_nul(s.spec_bytes()),
            r matches Ok(t) ==> t@ == s.spec_bytes(),
            r matches Err(e) ==> e.bytes() == s.spec_bytes() && is_first_nul(e.bytes(), e.position() as int),
    {
        let b = s.as_bytes();
        let mut i: usize = 0;
        while i < b.len()
            invariant
                0 <= i <= b@.len(),
                b@ == s.spec_bytes(),
                forall|j: int| 0 <= j < i ==> b@[j] != 0u8,
            decreases b@.len() - i,
        {
            if b[i] == 0 {
                let mut bytes: Vec<u8> = Vec::new();
                bytes.extend_from_slice(b);
                return Err(NulError::new(i, bytes));
            }
            i = i + 1;
        }
        let mut bytes: Vec<u8> = Vec::new();
        bytes.extend_from_slice(b);
        Ok(CText { bytes })
    }

    /// The bytes, without the terminating zero.
    pub fn as_bytes(&self) -> (r: &[u8])
        ensures
            r@ == self@,
            !has_nul(r@),
    {
        proof { use_type_invariant(self); }
        self.bytes.as_slice()
    }

    /// The bytes, without the terminating zero.
    pub fn into_bytes(self) -> (r: Vec<u8>)
        ensures
            r@ == self@,
            !has_nul(r@),
    {
        proof { use_type_invariant(&self); }
        self.bytes
    }
}

/// Whether `e` is the error for the bytes `b`, which hold a zero byte.
pub open spec fn is_nul_error_for(e: Error, b: Seq<u8>) -> bool {
    e matches Error::InteriorNul(n) && n.bytes() == b && is_first_nul(b, n.position() as int)
}

/// Whether `e` is the error for the first string of `values` that holds a zero byte.
pub open spec fn is_first_nul_error(e: Error, values: Seq<&str>) -> bool {
    exists|k: int|
        0 <= k < values.len() && (forall|j: int| 0 <= j < k ==> !has_nul(#[trigger] values[j].spec_bytes()))
            && is_nul_error_for(e, values[k].spec_bytes())
}

/// Converts `s` to a C string, or reports the zero byte in it.
pub fn c_text(s: &str) -> (r: Result<CText, Error>)
    ensures
        r is Ok <==> !has_nul(s.spec_bytes()),
        r matches Ok(t) ==> t@ == s.spec_bytes(),
        r matches Err(e) ==> is_nul_error_for(e, s.spec_bytes()),
{
    match CText::new(s) {
        Ok(t) => Ok(t),
        Err(e) => Err(Error::InteriorNul(e)),
    }
}

/// A list of C strings, in the order of the strings they were made from.
#[derive(Debug)]
pub struct CStringArray {
    strings: Vec<CText>,
}

impl View for CStringArray {
    type V = Seq<Seq<u8>>;

    closed spec fn view(&self) -> Seq<Seq<u8>> {
        self.strings@.map_values(|t: CText| t@)
    }
}

impl CStringArray {
    /// Converts each of `values` to a C string, stopping at the first that holds a zero byte.
    pub fn new(values: &[&str]) -> (r: Result<CStringArray, Error>)
        ensures
            r is Ok <==> !any_nul(values@),
            r matches Ok(a) ==> a@ == texts_bytes(values@),
            r matches Err(e) ==> is_first_nul_error(e, values@),
    {
        let mut strings: Vec<CText> = Vec::new();
        let mut i: usize = 0;
        while i < values.len()
            invariant
                0 <= i <= values@.len(),
                strings@.len() == i,
                forall|j: int| 0 <= j < i ==> (#[trigger] strings@[j])@ == values@[j].spec_bytes(),
                forall|j: int| 0 <= j < i ==> !has_nul(#[trigger] values@[j].spec_bytes()),
            decreases values@.len() - i,
        {
            match c_text(values[i]) {
                Ok(t) => strings.push(t),
                Err(e) => {
                    assert(is_first_nul_error(e, values@)) by {
                        assert(0 <= i < values@.len());
                    }
                    return Err(e);
                },
            }
            i = i + 1;
        }
        let r = CStringArray { strings };
        assert(r@ =~= texts_bytes(values@));
        Ok(r)
    }

    /// The C strings, in order.
    pub fn as_slice(&self) -> (r: &[CText])
        ensures
            r@.map_values(|t: CText| t@) == self@,
    {
        self.strings.as_slice()
    }

    /// The number of strings.
    pub fn len(&self) -> (r: usize)
        ensures
            r == self@.len(),
    {
        self.strings.len()
    }
}

/// Converts `values` to C strings, placed from index 1 on after an empty string,
/// for CDK functions that read their lists from index 1.
pub fn one_based_strings(values: &[&str]) -> (r: Result<CStringArray, Error>)
    ensures
        r is Ok <==> !any_nul(values@),
        r matches Ok(a) ==> a@ == seq![Seq::<u8>::empty()] + texts_bytes(values@),
        r matches Err(e) ==> is_first_nul_error(e, values@),
{
    let mut prefixed: Vec<&str> = Vec::new();
    prefixed.push("");
    let mut i: usize = 0;
    while i < values.len()
        invariant
            0 <= i <= values@.len(),
            prefixed@.len() == i + 1,
            prefixed@[0] == "",
            forall|j: int| 0 <= j < i ==> prefixed@[j + 1] == values@[j],
        decreases values@.len() - i,
    {
        prefixed.push(values[i]);
        i = i + 1;
    }
    proof {
        reveal_strlit("");
        assert(prefixed@ =~= seq![""] + values@);
        assert(""@ =~= Seq::<char>::empty());
        assert(encode_utf8(Seq::<char>::empty()) =~= Seq::<u8>::empty());
        assert(!has_nul(prefixed@[0].spec_bytes()));
        assert forall|j: int| 0 <= j < values@.len() implies #[trigger] prefixed@[j + 1] == values@[j] by {}
        assert(any_nul(prefixed@) <==> any_nul(values@)) by {
            if any_nul(values@) {
                let k = choose|k: int| 0 <= k < values@.len() && has_nul(values@[k].spec_bytes());
                assert(has_nul(prefixed@[k + 1].spec_bytes()));
            }
            if any_nul(prefixed@) {
                let k = choose|k: int| 0 <= k < prefixed@.len() && has_nul(prefixed@[k].spec_bytes());
                assert(k > 0);
                assert(has_nul(values@[k - 1].spec_bytes()));
            }
        }
    }
    let r = CStringArray::new(prefixed.as_slice());
    proof {
        if r is Ok {
            assert(r->Ok_0@ =~= seq![Seq::<u8>::empty()] + texts_bytes(values@));
        }
        if r is Err {
            let e = r->Err_0;
            let k = choose|k: int|
                0 <= k < prefixed@.len() && (forall|j: int| 0 <= j < k ==> !has_nul(#[trigger] prefixed@[j].spec_bytes()))
                    && is_nul_error_for(e, prefixed@[k].spec_bytes());
            assert(k > 0);
            assert forall|j: int| 0 <= j < k - 1 implies !has_nul(#[trigger] values@[j].spec_bytes()) by {
                assert(prefixed@[j + 1] == values@[j]);
            }
            assert(is_first_nul_error(e, values@)) by {
                assert(values@[k - 1] == prefixed@[k]);
            }
        }
    }
    r
}

/// Whether every value fits in a C `int`.
pub open spec fn all_fit(values: Seq<u32>) -> bool {
    forall|i: int| 0 <= i < values.len() ==> values[i] <= c_int_max()
}

/// Whether `e` is the error for the first of `values` that does not fit in a C `int`.
pub open spec fn is_first_out_of_range(e: Error, values: Seq<u32>, name: &'static str) -> bool {
    exists|k: int|
        0 <= k < values.len() && (forall|j: int| 0 <= j < k ==> #[trigger] values[j] <= c_int_max())
            && values[k] > c_int_max() && e == Error::ValueOutOfRange(name, values[k] as u64)
}

/// Whether `v` holds `values` as C `int`s from index 1 on, after a zero.
pub open spec fn is_one_based_ints(v: Seq<i32>, values: Seq<u32>) -> bool {
    &&& v.len() == values.len() + 1
    &&& v[0] == 0
    &&& forall|i: int| 0 <= i < values.len() ==> v[i + 1] == values[i] as i32
}

/// Converts `values` to C `int`s, placed from index 1 on after a zero,
/// for CDK functions that read their lists from index 1.
pub fn one_based_ints(values: &[u32], name: &'static str) -> (r: Result<Vec<i32>, Error>)
    ensures
        r is Ok <==> all_fit(values@),
        r matches Ok(v) ==> is_one_based_ints(v@, values@),
        r matches Err(e) ==> is_first_out_of_range(e, values@, name),
{
    let mut integers: Vec<i32> = Vec::new();
    integers.push(0);
    let mut i: usize = 0;
    while i < values.len()
        invariant
            0 <= i <= values@.len(),
            integers@.len() == i + 1,
            integers@[0] == 0,
            forall|j: int| 0 <= j < i ==> integers@[j + 1] == values@[j] as i32,
            forall|j: int| 0 <= j < i ==> #[trigger] values@[j] <= c_int_max(),
        decreases values@.len() - i,
    {
        match checked_c_int(values[i] as u64, name) {
            Ok(v) => integers.push(v),
            Err(e) => {
                assert(values@[i as int] > c_int_max());
                return Err(e);
            },
        }
        i = i + 1;
    }
    Ok(integers)
}

/// `count` copies of `value`, placed from index 1 on after a zero,
/// for CDK functions that read their lists from index 1.
pub fn one_based_repeat(value: i32, count: usize) -> (r: Vec<i32>)
    ensures
        r@.len() == count + 1,
        r@[0] == 0,
        forall|i: int| 1 <= i <= count ==> r@[i] == value,
{
    let mut r: Vec<i32> = Vec::new();
    r.push(0);
    let mut i: usize = 0;
    while i < count
        invariant
            0 <= i <= count,
            r@.len() == i + 1,
            r@[0] == 0,
            forall|j: int| 1 <= j <= i ==> r@[j] == value,
        decreases count - i,
    {
        r.push(value);
        i = i + 1;
    }
    r
}

/// The error `std::str::from_utf8` reports for bytes that are not UTF-8.
pub uninterp spec fn utf8_error_of(bytes: Seq<u8>) -> std::str::Utf8Error;

/// Declares `std::str::from_utf8`: the bytes as a string slice when they are UTF-8.
///
/// The contract claims what the function's documentation states: an error exactly when
/// the bytes are not valid UTF-8, and otherwise a string slice over those same bytes.
/// The error is named as a function of the bytes alone (`utf8_error_of`); what it holds
/// is left unsaid.
#[verifier::external_body]
fn str_from_utf8(bytes: &[u8]) -> (r: Result<&str, std::str::Utf8Error>)
    ensures
        r is Ok <==> valid_utf8(bytes@),
        r matches Ok(s) ==> s.spec_bytes() == bytes@,
        r matches Err(e) ==> e == utf8_error_of(bytes@),
{
    std::str::from_utf8(bytes)
}

/// The string that CDK handed back, read up to its terminating zero: `None` for a null
/// pointer. A null pointer and bytes that are not UTF-8 are errors.
pub fn owned_c_string(value: Option<&[u8]>, name: &'static str) -> (r: Result<String, Error>)
    ensures
        value is None ==> r == Err::<String, Error>(Error::NullHandle(name)),
        value matches Some(b) ==> (r is Ok <==> valid_utf8(b@)),
        value matches Some(b) ==> (valid_utf8(b@) ==> (r matches Ok(s) && s@ == decode_utf8(b@))),
        value matches Some(b) ==> (!valid_utf8(b@) ==> r == Err::<String, Error>(
            Error::InvalidUtf8(utf8_error_of(b@)),
        )),
{
    match value {
        None => Err(Error::NullHandle(name)),
        Some(b) => match str_from_utf8(b) {
            Ok(s) => {
                proof { broadcast use vstd::utf8::encode_utf8_decode_utf8; }
                Ok(String::from_str(s))
            },
            Err(e) => Err(Error::InvalidUtf8(e)),
        },
    }
}

} // verus!
