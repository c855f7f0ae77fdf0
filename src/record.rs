//! How newspapers and orders are stored: each record is the JSON array of its fields, as
//! serde_json writes a tuple.
use vstd::prelude::*;

use crate::delivery::{DeliveryModel, Priority};
use crate::newspaper::{Newspaper, NewspaperModel, UncheckedNewspaper, WeeklyFrequency};
use crate::order::{CoverModel, Frame, Order, OrderModel, WishCardModel};
use crate::signature::{Signature, is_signature};

verus! {

/// The fields of a stored newspaper: signature, name, first year, last year, schedule.
pub type NewspaperFields = (Seq<char>, Seq<char>, u16, Option<u16>, Seq<bool>);

/// The JSON that serde_json writes for a newspaper's fields as a tuple.
pub uninterp spec fn newspaper_json(fields: NewspaperFields) -> Seq<u8>;

/// The fields that serde_json reads from `b` as a newspaper tuple, if it reads them.
pub uninterp spec fn newspaper_fields(b: Seq<u8>) -> Option<NewspaperFields>;

pub open spec fn opt_u16(y: Option<u16>) -> Option<int> {
    match y {
        Some(v) => Some(v as int),
        None => None,
    }
}

/// A newspaper's fields, as a record holds them.
pub open spec fn fields_of(n: NewspaperModel) -> NewspaperFields {
    (
        n.signature,
        n.name,
        n.start_year as u16,
        match n.end_year {
            Some(e) => Some(e as u16),
            None => None,
        },
        n.schedule,
    )
}

/// The newspaper a stored record holds: its fields must read and its signature hold.
pub open spec fn decoded_newspaper(b: Seq<u8>) -> Option<NewspaperModel> {
    match newspaper_fields(b) {
        Some(f) => if is_signature(f.0) && f.4.len() == 7 {
            Some(
                NewspaperModel {
                    signature: f.0,
                    name: f.1,
                    start_year: f.2 as int,
                    end_year: opt_u16(f.3),
                    schedule: f.4,
                },
            )
        } else {
            None
        },
        None => None,
    }
}

/// The record of a newspaper.
pub open spec fn newspaper_record(n: NewspaperModel) -> Seq<u8> {
    newspaper_json(fields_of(n))
}

/// Relies on `serde_json::to_vec` on a tuple of strings, integers and booleans: writing it
/// into a `Vec` cannot fail.
#[verifier::external_body]
fn newspaper_to_json(
    signature: &str,
    name: &str,
    start_year: u16,
    end_year: Option<u16>,
    days: [bool; 7],
) -> (r: Option<Vec<u8>>)
    ensures
        r is Some,
        r matches Some(b) ==> b@ == newspaper_json((signature@, name@, start_year, end_year, days@)),
{
    serde_json::to_vec(&(signature, name, start_year, end_year, days)).ok()
}

/// Relies on `serde_json::from_slice` into a tuple of strings, integers and booleans.
#[verifier::external_body]
fn newspaper_from_json(b: &Vec<u8>) -> (r: Option<(String, String, u16, Option<u16>, [bool; 7])>)
    ensures
        match r {
            Some(t) => newspaper_fields(b@) == Some((t.0@, t.1@, t.2, t.3, t.4@)),
            None => newspaper_fields(b@) is None,
        },
{
    serde_json::from_slice::<(String, String, u16, Option<u16>, [bool; 7])>(b).ok()
}

/// Writes a newspaper's record.
pub fn encode_newspaper(n: &Newspaper) -> (r: Option<Vec<u8>>)
    ensures
        r matches Some(b) && b@ == newspaper_record(n@),
{
    let start = n.start_year();
    let end = n.end_year();
    let r = newspaper_to_json(n.identificator(), n.name(), start, end, n.weekly_schedule().days());
    proof {
        assert(fields_of(n@).3 == end) by {
            match end {
                Some(e) => {},
                None => {},
            }
        }
        assert(fields_of(n@) == (n@.signature, n@.name, start, end, n@.schedule));
    }
    r
}

/// Reads a newspaper's record; a record whose fields do not read, or whose signature does
/// not hold, gives nothing.
pub fn decode_newspaper(b: &Vec<u8>) -> (r: Option<UncheckedNewspaper>)
    ensures
        match decoded_newspaper(b@) {
            Some(m) => r matches Some(u) && u@ == m,
            None => r is None,
        },
{
    match newspaper_from_json(b) {
        Some((signature, name, start_year, end_year, days)) => {
            let ghost sig_view = signature@;
            match Signature::try_new(signature) {
                Ok(sig) => {
                    let u = UncheckedNewspaper {
                        signature: sig,
                        name,
                        start_year,
                        end_year,
                        weekly_schedule: WeeklyFrequency::new(days),
                    };
                    proof {
                        assert(u@.end_year == opt_u16(end_year)) by {
                            match end_year {
                                Some(e) => {},
                                None => {},
                            }
                        }
                    }
                    Some(u)
                },
                Err(_) => None,
            }
        },
        None => None,
    }
}

/// The fields of a stored order: the covers; the card's background, frame, message, font
/// and template; the delivery's names, phone, address and priority; the creation time.
pub type OrderFields = (
    (Seq<char>, Option<Seq<char>>, Option<Seq<char>>),
    (Seq<u8>, Seq<char>, Seq<char>, Seq<char>, u8, u8),
    (Seq<char>, Seq<char>, Seq<char>, Seq<char>),
    u64,
);

/// The JSON that serde_json writes for an order's fields as nested tuples.
pub uninterp spec fn order_json(fields: OrderFields) -> Seq<u8>;

pub open spec fn frame_name(f: Frame) -> Seq<char> {
    match f {
        Frame::White => "White"@,
        Frame::Black => "Black"@,
        Frame::Wooden => "Wooden"@,
    }
}

pub open spec fn priority_name(p: Priority) -> Seq<char> {
    match p {
        Priority::Standard => "Standard"@,
        Priority::Express => "Express"@,
    }
}

pub fn frame_text(f: Frame) -> (r: &'static str)
    ensures
        r@ == frame_name(f),
{
    match f {
        Frame::White => "White",
        Frame::Black => "Black",
        Frame::Wooden => "Wooden",
    }
}

pub fn priority_text(p: Priority) -> (r: &'static str)
    ensures
        r@ == priority_name(p),
{
    match p {
        Priority::Standard => "Standard",
        Priority::Express => "Express",
    }
}

/// An order's fields, as its record holds them.
pub open spec fn order_fields(o: OrderModel) -> OrderFields {
    (
        (o.wish_card.covers.preference, o.wish_card.covers.first, o.wish_card.covers.second),
        (
            o.wish_card.background,
            frame_name(o.wish_card.frame),
            o.wish_card.message,
            o.wish_card.font_type,
            o.wish_card.font_size,
            o.wish_card.template_id,
        ),
        (
            o.delivery.customer_names,
            o.delivery.phone_number,
            o.delivery.address,
            priority_name(o.delivery.priority),
        ),
        o.created_on_ms as u64,
    )
}

/// The record of an order.
pub open spec fn order_record(o: OrderModel) -> Seq<u8> {
    order_json(order_fields(o))
}

pub open spec fn opt_text(o: Option<&str>) -> Option<Seq<char>> {
    match o {
        Some(s) => Some(s@),
        None => None,
    }
}

/// Relies on `serde_json::to_vec` on nested tuples of strings, integers and byte arrays:
/// writing them into a `Vec` cannot fail.
#[verifier::external_body]
fn order_to_json(
    covers: (&str, Option<&str>, Option<&str>),
    card: ([u8; 3], &str, &str, &str, u8, u8),
    delivery: (&str, &str, &str, &str),
    created_on_ms: u64,
) -> (r: Option<Vec<u8>>)
    ensures
        r is Some,
        r matches Some(b) ==> b@ == order_json(
            (
                (covers.0@, opt_text(covers.1), opt_text(covers.2)),
                (card.0@, card.1@, card.2@, card.3@, card.4, card.5),
                (delivery.0@, delivery.1@, delivery.2@, delivery.3@),
                created_on_ms,
            ),
        ),
{
    serde_json::to_vec(&(covers, card, delivery, created_on_ms)).ok()
}

fn sig_text(o: &Option<Signature>) -> (r: Option<&str>)
    ensures
        opt_text(r) == crate::order::opt_sig(*o),
{
    match o {
        Some(s) => Some(s.as_str()),
        None => None,
    }
}

/// Writes an order's record.
pub fn encode_order(o: &Order) -> (r: Option<Vec<u8>>)
    ensures
        r matches Some(b) && b@ == order_record(o@),
{
    let w = o.wish_card();
    let c = w.covers();
    let options = c.options();
    let d = o.delivery();
    let r = order_to_json(
        (c.preference().as_str(), sig_text(&options[0]), sig_text(&options[1])),
        (w.background().channels(), frame_text(w.frame()), w.message(), w.font_type(), w.font_size(), w.template_id()),
        (d.customer_names(), d.phone(), d.address(), priority_text(d.priority())),
        o.created_on_ms(),
    );
    r
}

} // verus!
