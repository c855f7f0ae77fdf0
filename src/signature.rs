//! Newspaper signatures: the marker letter followed by four digits.
use vstd::prelude::*;

use crate::newspaper::NewspaperError;

verus! {

/// The Cyrillic letter that opens every signature.
pub const SIGN: char = 'В';

/// A decimal digit `0`..`9`.
pub open spec fn is_digit(c: char) -> bool {
    '0' <= c && c <= '9'
}

/// The signature pattern: the marker, then four digits that are not all zero.
pub open spec fn is_signature(s: Seq<char>) -> bool {
    &&& s.len() == 5
    &&& s[0] == SIGN
    &&& forall|i: int| 1 <= i < 5 ==> is_digit(#[trigger] s[i])
    &&& exists|i: int| 1 <= i < 5 && #[trigger] s[i] != '0'
}

pub fn is_ascii_digit(c: char) -> (r: bool)
    ensures
        r == is_digit(c),
{
    '0' <= c && c <= '9'
}

/// A validated newspaper identifier; also the storage key of the newspaper.
#[derive(Debug)]
pub struct Signature {
    value: String,
}

impl View for Signature {
    type V = Seq<char>;

    closed spec fn view(&self) -> Seq<char> {
        self.value@
    }
}

impl Signature {
    /// Whether the held text follows the signature pattern.
    pub fn invariant_held(&self) -> (r: bool)
        ensures
            r == is_signature(self@),
    {
        let s = self.value.as_str();
        if s.unicode_len() != 5 {
            return false;
        }
        if s.get_char(0) != SIGN {
            return false;
        }
        let mut nonzero = false;
        let mut i: usize = 1;
        while i < 5
            invariant
                1 <= i <= 5,
                s@ == self@,
                s@.len() == 5,
                forall|j: int| 1 <= j < i ==> is_digit(#[trigger] s@[j]),
                nonzero <==> exists|j: int| 1 <= j < i && #[trigger] s@[j] != '0',
            decreases 5 - i,
        {
            let c = s.get_char(i);
            if !is_ascii_digit(c) {
                return false;
            }
            if c != '0' {
                nonzero = true;
            }
            i = i + 1;
        }
        nonzero
    }

    /// Checks `value` against the pattern and wraps it.
    pub fn try_new(value: String) -> (r: Result<Signature, NewspaperError>)
        ensures
            r is Ok <==> is_signature(value@),
            r matches Ok(sig) ==> sig@ == value@,
            r matches Err(e) ==> e == NewspaperError::SignatureMismatch,
    {
        let obj = Signature { value };
        if obj.invariant_held() {
            Ok(obj)
        } else {
            Err(NewspaperError::SignatureMismatch)
        }
    }

    /// The signature's text.
    pub fn as_str(&self) -> (r: &str)
        ensures
            r@ == self@,
    {
        self.value.as_str()
    }
}

/// Whether `v` is the code of a Unicode scalar value.
pub open spec fn is_scalar_value(v: int) -> bool {
    0 <= v <= 0x10FFFF && !(0xD800 <= v <= 0xDFFF)
}

/// Relies on `char::from_u32`: the character with code `v`, if `v` is a scalar value.
#[verifier::external_body]
fn char_from_code(v: u32) -> (r: Option<char>)
    ensures
        r is Some <==> is_scalar_value(v as int),
        r matches Some(c) ==> c as int == v as int,
{
    char::from_u32(v)
}

/// The character whose code follows that of `c`: the exclusive upper bound of a key range
/// that holds every key starting with `c`.
pub fn next_letter(c: char) -> (r: char)
    requires
        is_scalar_value(c as int + 1),
    ensures
        r as int == c as int + 1,
{
    let code = c as u32;
    match char_from_code(code + 1) {
        Some(n) => n,
        None => c,
    }
}

} // verus!
