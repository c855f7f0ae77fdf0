//! The few JSON values this library writes and reads itself: numbers, strings and the
//! framing of tagged events.
use vstd::prelude::*;

verus! {

/// The decimal digits of `n` as ASCII bytes, without leading zeros.
pub open spec fn decimal_bytes(n: nat) -> Seq<u8>
    decreases n,
{
    if n < 10 {
        seq![(48 + n) as u8]
    } else {
        decimal_bytes(n / 10).push((48 + n % 10) as u8)
    }
}

/// The decimal digits of `n` as characters, without leading zeros.
pub open spec fn decimal_chars(n: nat) -> Seq<char>
    decreases n,
{
    if n < 10 {
        seq![(48 + n) as char]
    } else {
        decimal_chars(n / 10).push((48 + n % 10) as char)
    }
}

/// The number that serde_json reads from `b` as a `u8`, if it reads one.
pub uninterp spec fn json_u8(b: Seq<u8>) -> Option<u8>;

/// The JSON string literal that serde_json writes for `s`.
pub uninterp spec fn json_string(s: Seq<char>) -> Seq<u8>;

/// Relies on `serde_json::to_vec` on a `u8`: writing a number into a `Vec` cannot fail; it
/// writes the decimal digits, which `serde_json::from_slice` reads back as the number.
#[verifier::external_body]
pub(crate) fn u8_to_json(n: u8) -> (r: Option<Vec<u8>>)
    ensures
        r is Some,
        r matches Some(b) ==> b@ == decimal_bytes(n as nat) && json_u8(b@) == Some(n),
{
    serde_json::to_vec(&n).ok()
}

/// Relies on `serde_json::from_slice` into a `u8`: decimal digits read back as the number
/// they write.
#[verifier::external_body]
pub(crate) fn u8_from_json(b: &Vec<u8>) -> (r: Option<u8>)
    ensures
        r == json_u8(b@),
        forall|n: u8| b@ == decimal_bytes(n as nat) ==> r == Some(n),
{
    serde_json::from_slice::<u8>(b).ok()
}

/// Relies on `serde_json::to_vec` on a `&str`: writing a string into a `Vec` cannot fail;
/// it writes the string as a JSON literal.
#[verifier::external_body]
pub(crate) fn str_to_json(s: &str) -> (r: Option<Vec<u8>>)
    ensures
        r is Some,
        r matches Some(b) ==> b@ == json_string(s@),
{
    serde_json::to_vec(s).ok()
}

/// Relies on `ToString` on a `u64`: its decimal digits.
#[verifier::external_body]
pub(crate) fn u64_to_text(n: u64) -> (r: String)
    ensures
        r@ == decimal_chars(n as nat),
{
    n.to_string()
}

/// A JSON object with a single member, `tag` mapped to the string `id`: how a tagged
/// event with a text payload is written.
pub open spec fn tagged_json(tag: Seq<char>, id: Seq<char>) -> Seq<u8> {
    seq![123u8] + json_string(tag) + seq![58u8] + json_string(id) + seq![125u8]
}

/// Writes `{tag: id}` as JSON.
pub fn tagged_to_json(tag: &str, id: &str) -> (r: Option<Vec<u8>>)
    ensures
        r matches Some(b) && b@ == tagged_json(tag@, id@),
{
    let t = str_to_json(tag);
    let v = str_to_json(id);
    match (t, v) {
        (Some(mut t), Some(mut v)) => {
            let ghost tv = t@;
            let ghost vv = v@;
            let mut out: Vec<u8> = Vec::new();
            out.push(123u8);
            out.append(&mut t);
            out.push(58u8);
            out.append(&mut v);
            out.push(125u8);
            proof {
                assert(out@ =~= tagged_json(tag@, id@));
            }
            Some(out)
        },
        _ => None,
    }
}

} // verus!
