//! Deliveries: who receives an order, where, and how fast.
use vstd::prelude::*;

use crate::order::{DeliveryRule, OrderError};
use crate::signature::{is_ascii_digit, is_digit};

verus! {

/// Unicode's White_Space characters, the separators between names.
pub open spec fn is_white_space(c: char) -> bool {
    ||| ('\t' <= c && c <= '\r')
    ||| c == ' '
    ||| c == '\u{85}'
    ||| c == '\u{A0}'
    ||| c == '\u{1680}'
    ||| ('\u{2000}' <= c && c <= '\u{200A}')
    ||| c == '\u{2028}'
    ||| c == '\u{2029}'
    ||| c == '\u{202F}'
    ||| c == '\u{205F}'
    ||| c == '\u{3000}'
}

pub fn white_space(c: char) -> (r: bool)
    ensures
        r == is_white_space(c),
{
    ('\t' <= c && c <= '\r') || c == ' ' || c == '\u{85}' || c == '\u{A0}' || c == '\u{1680}' || (
    '\u{2000}' <= c && c <= '\u{200A}') || c == '\u{2028}' || c == '\u{2029}' || c == '\u{202F}'
        || c == '\u{205F}' || c == '\u{3000}'
}

/// Whether `s` holds at least two words: a non-space, later a space, later a non-space.
pub open spec fn has_two_words(s: Seq<char>) -> bool {
    exists|i: int, j: int, k: int|
        0 <= i < j < k < s.len() && !is_white_space(#[trigger] s[i]) && is_white_space(
            #[trigger] s[j],
        ) && !is_white_space(#[trigger] s[k])
}

/// The digits of a phone number after its prefix `+359` or `0`, if it has one.
pub open spec fn phone_digits(s: Seq<char>) -> Option<Seq<char>> {
    if s.len() >= 4 && s[0] == '+' && s[1] == '3' && s[2] == '5' && s[3] == '9' {
        Some(s.skip(4))
    } else if s.len() >= 1 && s[0] == '0' {
        Some(s.skip(1))
    } else {
        None
    }
}

/// Exactly nine decimal digits.
pub open spec fn is_nine_digits(d: Seq<char>) -> bool {
    d.len() == 9 && forall|i: int| 0 <= i < 9 ==> is_digit(#[trigger] d[i])
}

/// The first broken rule of a phone number, if any.
pub open spec fn phone_problem(s: Seq<char>) -> Option<DeliveryRule> {
    match phone_digits(s) {
        None => Some(DeliveryRule::PhonePrefix),
        Some(d) => if is_nine_digits(d) {
            None
        } else {
            Some(DeliveryRule::PhoneDigits)
        },
    }
}

/// The customer must give at least two names.
pub fn check_names(names: &str) -> (r: Result<(), OrderError>)
    ensures
        has_two_words(names@) ==> r is Ok,
        !has_two_words(names@) ==> r matches Err(
            OrderError::InvalidDelivery(DeliveryRule::TooFewNames),
        ),
{
    let n = names.unicode_len();
    let ghost s = names@;
    // 0: only spaces so far; 1: inside the first word; 2: spaces after the first word
    let mut state: u8 = 0;
    let ghost mut first: int = 0;
    let ghost mut gap: int = 0;
    let mut p: usize = 0;
    while p < n
        invariant
            n == s.len(),
            s == names@,
            p <= n,
            state <= 2,
            state == 0 ==> forall|i: int| 0 <= i < p ==> is_white_space(#[trigger] s[i]),
            state >= 1 ==> 0 <= first < p && forall|i: int|
                0 <= i < first ==> is_white_space(#[trigger] s[i]),
            state == 1 ==> forall|i: int| first <= i < p ==> !is_white_space(#[trigger] s[i]),
            state == 2 ==> first < gap < p && (forall|i: int|
                first <= i < gap ==> !is_white_space(#[trigger] s[i])) && (forall|i: int|
                gap <= i < p ==> is_white_space(#[trigger] s[i])),
        decreases n - p,
    {
        let c = names.get_char(p);
        let ws = white_space(c);
        if state == 0 {
            if !ws {
                state = 1;
                proof {
                    first = p as int;
                }
            }
        } else if state == 1 {
            if ws {
                state = 2;
                proof {
                    gap = p as int;
                }
            }
        } else if !ws {
            proof {
                assert(!is_white_space(s[first]) && is_white_space(s[gap]) && !is_white_space(
                    s[p as int],
                ));
            }
            return Ok(());
        }
        p = p + 1;
    }
    proof {
        assert forall|i: int, j: int, k: int|
            0 <= i < j < k < s.len() && !is_white_space(#[trigger] s[i]) && is_white_space(
                #[trigger] s[j],
            ) implies is_white_space(#[trigger] s[k]) by {
            if state == 2 {
                assert(i >= first);
                assert(j >= gap);
            } else if state == 1 {
                assert(i >= first);
            }
        }
    }
    Err(OrderError::InvalidDelivery(DeliveryRule::TooFewNames))
}

/// The phone number must start with `+359` or `0`, followed by exactly nine digits.
pub fn check_phone(number: &str) -> (r: Result<(), OrderError>)
    ensures
        match phone_problem(number@) {
            Some(rule) => r matches Err(OrderError::InvalidDelivery(x)) && x == rule,
            None => r is Ok,
        },
{
    let n = number.unicode_len();
    let ghost s = number@;
    let start: usize = if n >= 4 && number.get_char(0) == '+' && number.get_char(1) == '3'
        && number.get_char(2) == '5' && number.get_char(3) == '9' {
        4
    } else if n >= 1 && number.get_char(0) == '0' {
        1
    } else {
        return Err(OrderError::InvalidDelivery(DeliveryRule::PhonePrefix));
    };
    let ghost d = s.skip(start as int);
    assert(phone_digits(s) == Some(d));
    if n - start != 9 {
        return Err(OrderError::InvalidDelivery(DeliveryRule::PhoneDigits));
    }
    let mut p: usize = start;
    while p < n
        invariant
            start <= p <= n,
            n == s.len(),
            s == number@,
            d == s.skip(start as int),
            phone_digits(s) == Some(d),
            n - start == 9,
            forall|i: int| 0 <= i < p - start ==> is_digit(#[trigger] d[i]),
        decreases n - p,
    {
        let c = number.get_char(p);
        if !is_ascii_digit(c) {
            proof {
                let idx = p as int - start as int;
                assert(d[idx] == c);
                assert(0 <= idx < 9 && !is_digit(d[idx]));
                assert(!is_nine_digits(d));
            }
            return Err(OrderError::InvalidDelivery(DeliveryRule::PhoneDigits));
        }
        p = p + 1;
    }
    Ok(())
}

/// How fast an order travels.
#[derive(Debug, Clone, Copy, PartialEq, Eq)]
pub enum Priority {
    Standard,
    Express,
}

/// What a delivery holds, as mathematical values.
pub struct DeliveryModel {
    pub customer_names: Seq<char>,
    pub phone_number: Seq<char>,
    pub address: Seq<char>,
    pub priority: Priority,
}

/// The first broken rule of a delivery, if any: names first, then the phone number.
pub open spec fn delivery_problem(d: DeliveryModel) -> Option<DeliveryRule> {
    if !has_two_words(d.customer_names) {
        Some(DeliveryRule::TooFewNames)
    } else {
        phone_problem(d.phone_number)
    }
}

/// Where and to whom an order goes.
#[derive(Debug)]
pub struct Delivery {
    customer_names: String,
    phone_number: String,
    address: String,
    priority: Priority,
}

impl View for Delivery {
    type V = DeliveryModel;

    closed spec fn view(&self) -> DeliveryModel {
        DeliveryModel {
            customer_names: self.customer_names@,
            phone_number: self.phone_number@,
            address: self.address@,
            priority: self.priority,
        }
    }
}

/// A delivery as it arrives.
pub struct UncheckedDelivery {
    pub customer_names: String,
    pub phone_number: String,
    pub address: String,
    pub priority: Priority,
}

impl View for UncheckedDelivery {
    type V = DeliveryModel;

    open spec fn view(&self) -> DeliveryModel {
        DeliveryModel {
            customer_names: self.customer_names@,
            phone_number: self.phone_number@,
            address: self.address@,
            priority: self.priority,
        }
    }
}

fn check_fields(names: &str, phone: &str) -> (r: Result<(), OrderError>)
    ensures
        match delivery_problem(
            DeliveryModel {
                customer_names: names@,
                phone_number: phone@,
                address: Seq::empty(),
                priority: Priority::Standard,
            },
        ) {
            Some(rule) => r matches Err(OrderError::InvalidDelivery(x)) && x == rule,
            None => r is Ok,
        },
{
    match check_names(names) {
        Ok(()) => check_phone(phone),
        Err(e) => Err(e),
    }
}

impl Delivery {
    /// Assembles a delivery without checking it.
    pub fn new_unchecked(
        customer_names: String,
        phone_number: String,
        address: String,
        priority: Priority,
    ) -> (r: Delivery)
        ensures
            r@ == (DeliveryModel {
                customer_names: customer_names@,
                phone_number: phone_number@,
                address: address@,
                priority,
            }),
    {
        Delivery { customer_names, phone_number, address, priority }
    }

    pub fn phone(&self) -> (r: &str)
        ensures
            r@ == self@.phone_number,
    {
        self.phone_number.as_str()
    }

    pub fn customer_names(&self) -> (r: &str)
        ensures
            r@ == self@.customer_names,
    {
        self.customer_names.as_str()
    }

    pub fn address(&self) -> (r: &str)
        ensures
            r@ == self@.address,
    {
        self.address.as_str()
    }

    pub fn priority(&self) -> (r: Priority)
        ensures
            r == self@.priority,
    {
        self.priority
    }

    /// Checks the names and the phone number.
    pub fn check(&self) -> (r: Result<(), OrderError>)
        ensures
            match delivery_problem(self@) {
                Some(rule) => r matches Err(OrderError::InvalidDelivery(x)) && x == rule,
                None => r is Ok,
            },
    {
        check_fields(self.customer_names.as_str(), self.phone_number.as_str())
    }
}

impl UncheckedDelivery {
    /// The delivery, once its names and phone number hold.
    pub fn into_checked(self) -> (r: Result<Delivery, OrderError>)
        ensures
            match delivery_problem(self@) {
                Some(rule) => r matches Err(OrderError::InvalidDelivery(x)) && x == rule,
                None => r matches Ok(d) && d@ == self@,
            },
    {
        let obj = Delivery::new_unchecked(
            self.customer_names,
            self.phone_number,
            self.address,
            self.priority,
        );
        match obj.check() {
            Ok(()) => Ok(obj),
            Err(e) => Err(e),
        }
    }
}

} // verus!
