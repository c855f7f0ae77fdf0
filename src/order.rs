//! Orders: the wish card with its chosen covers, and the delivery.
use vstd::prelude::*;

use crate::calendar::Clock;
use crate::delivery::{DeliveryModel, Delivery, UncheckedDelivery, delivery_problem};
use crate::json::{decimal_chars, json_u8, u64_to_text, u8_from_json};
use crate::signature::Signature;
use crate::storage::Storage;

verus! {

/// Storage key of the configured number of card templates.
pub const MAX_CARDS_KEY: &'static str = "max_cards";

/// Which rule on deliveries an order broke.
#[derive(Debug, Clone, Copy, PartialEq, Eq)]
pub enum DeliveryRule {
    /// The customer gave fewer than two names.
    TooFewNames,
    /// The phone number starts with neither `0` nor `+359`.
    PhonePrefix,
    /// After its prefix the phone number is not nine digits.
    PhoneDigits,
}

impl DeliveryRule {
    pub open spec fn spec_message(self) -> Seq<char> {
        match self {
            DeliveryRule::TooFewNames => "The customer has to supply at least two names."@,
            DeliveryRule::PhonePrefix => "Phone number must start with 0 or +359"@,
            DeliveryRule::PhoneDigits => "Wrong number of digits"@,
        }
    }

    pub fn message(&self) -> (r: &'static str)
        ensures
            r@ == self.spec_message(),
    {
        match self {
            DeliveryRule::TooFewNames => "The customer has to supply at least two names.",
            DeliveryRule::PhonePrefix => "Phone number must start with 0 or +359",
            DeliveryRule::PhoneDigits => "Wrong number of digits",
        }
    }
}

/// Errors of the order domain.
#[derive(Debug)]
pub enum OrderError {
    /// The card template lies beyond the configured number of templates.
    InvalidCard,
    /// The stored number of templates could not be read.
    DeserializationFault,
    /// No number of templates is configured.
    MaxCardsNotFound,
    /// A chosen cover names a newspaper that is not stored; the signature is given.
    SignatureNotFound(String),
    InvalidDelivery(DeliveryRule),
}

/// Opening words of the message for a missing cover.
pub const NOT_FOUND_PREFIX: &'static str = "[order] The signature ";

/// Closing words of the message for a missing cover.
pub const NOT_FOUND_SUFFIX: &'static str = " is not found.";

impl OrderError {
    pub open spec fn spec_message(&self) -> Seq<char> {
        match self {
            OrderError::InvalidCard => "[order] The card number does not exist."@,
            OrderError::DeserializationFault => "[order] Problem while deserialization"@,
            OrderError::MaxCardsNotFound => "[order] Failed to fetch the max cards."@,
            OrderError::SignatureNotFound(s) => NOT_FOUND_PREFIX@ + s@ + NOT_FOUND_SUFFIX@,
            OrderError::InvalidDelivery(rule) => "[order] Invalid waybill invariant: "@
                + rule.spec_message(),
        }
    }

    /// The error as a sentence for the caller; a missing cover is named in it.
    pub fn message(&self) -> (r: String)
        ensures
            r@ == self.spec_message(),
    {
        match self {
            OrderError::InvalidCard => String::from_str("[order] The card number does not exist."),
            OrderError::DeserializationFault => String::from_str(
                "[order] Problem while deserialization",
            ),
            OrderError::MaxCardsNotFound => String::from_str(
                "[order] Failed to fetch the max cards.",
            ),
            OrderError::SignatureNotFound(sig) => String::from_str(NOT_FOUND_PREFIX).concat(
                sig.as_str(),
            ).concat(NOT_FOUND_SUFFIX),
            OrderError::InvalidDelivery(rule) => String::from_str(
                "[order] Invalid waybill invariant: ",
            ).concat(rule.message()),
        }
    }
}

pub open spec fn opt_sig(o: Option<Signature>) -> Option<Seq<char>> {
    match o {
        Some(s) => Some(s@),
        None => None,
    }
}

/// The chosen covers: a preferred newspaper and up to two more.
pub struct CoverModel {
    pub preference: Seq<char>,
    pub first: Option<Seq<char>>,
    pub second: Option<Seq<char>>,
}

/// The first chosen signature that `held` lacks, preference first.
pub open spec fn first_missing(c: CoverModel, held: Map<Seq<char>, Seq<u8>>) -> Option<Seq<char>> {
    if !held.contains_key(c.preference) {
        Some(c.preference)
    } else if c.first matches Some(s) && !held.contains_key(s) {
        c.first
    } else if c.second matches Some(s) && !held.contains_key(s) {
        c.second
    } else {
        None
    }
}

/// The newspapers chosen for a card, checked to be stored.
#[derive(Debug)]
pub struct Cover {
    preference: Signature,
    options: [Option<Signature>; 2],
}

impl View for Cover {
    type V = CoverModel;

    closed spec fn view(&self) -> CoverModel {
        CoverModel {
            preference: self.preference@,
            first: opt_sig(self.options@[0]),
            second: opt_sig(self.options@[1]),
        }
    }
}

/// The chosen newspapers as they arrive.
pub struct UncheckedCover {
    pub preference: Signature,
    pub options: [Option<Signature>; 2],
}

impl View for UncheckedCover {
    type V = CoverModel;

    open spec fn view(&self) -> CoverModel {
        CoverModel {
            preference: self.preference@,
            first: opt_sig(self.options@[0]),
            second: opt_sig(self.options@[1]),
        }
    }
}

/// Fails with the signature of `o` when `storage` lacks it.
fn check_held<S: Storage>(o: &Option<Signature>, storage: &S) -> (r: Result<(), OrderError>)
    ensures
        match opt_sig(*o) {
            Some(s) => if storage.records().contains_key(s) {
                r is Ok
            } else {
                r matches Err(OrderError::SignatureNotFound(t)) && t@ == s
            },
            None => r is Ok,
        },
{
    match o {
        Some(sig) => {
            if storage.retrieve(sig.as_str()).is_some() {
                Ok(())
            } else {
                Err(OrderError::SignatureNotFound(String::from_str(sig.as_str())))
            }
        },
        None => Ok(()),
    }
}

/// Checks that `storage` holds each chosen signature.
fn covers_held<S: Storage>(
    preference: &Signature,
    options: &[Option<Signature>; 2],
    storage: &S,
) -> (r: Result<(), OrderError>)
    ensures
        match first_missing(
            CoverModel {
                preference: preference@,
                first: opt_sig(options@[0]),
                second: opt_sig(options@[1]),
            },
            storage.records(),
        ) {
            Some(s) => r matches Err(OrderError::SignatureNotFound(t)) && t@ == s,
            None => r is Ok,
        },
{
    if storage.retrieve(preference.as_str()).is_none() {
        return Err(OrderError::SignatureNotFound(String::from_str(preference.as_str())));
    }
    match check_held(&options[0], storage) {
        Ok(()) => {},
        Err(e) => {
            return Err(e);
        },
    }
    check_held(&options[1], storage)
}

impl Cover {
    /// Assembles covers without checking them against a store.
    pub fn new_unchecked(preference: Signature, options: [Option<Signature>; 2]) -> (r: Cover)
        ensures
            r@ == (CoverModel {
                preference: preference@,
                first: opt_sig(options@[0]),
                second: opt_sig(options@[1]),
            }),
    {
        Cover { preference, options }
    }

    pub fn preference(&self) -> (r: &Signature)
        ensures
            r@ == self@.preference,
    {
        &self.preference
    }

    pub fn options(&self) -> (r: &[Option<Signature>; 2])
        ensures
            opt_sig(r@[0]) == self@.first,
            opt_sig(r@[1]) == self@.second,
    {
        &self.options
    }

    /// Checks that `storage` holds every chosen newspaper; the first missing one is named.
    pub fn invariant_held<S: Storage>(&self, storage: &S) -> (r: Result<(), OrderError>)
        ensures
            match first_missing(self@, storage.records()) {
                Some(s) => r matches Err(OrderError::SignatureNotFound(t)) && t@ == s,
                None => r is Ok,
            },
    {
        covers_held(&self.preference, &self.options, storage)
    }
}

impl UncheckedCover {
    /// The covers, once `storage` is found to hold every chosen newspaper.
    pub fn into_checked<S: Storage>(self, storage: &S) -> (r: Result<Cover, OrderError>)
        ensures
            match first_missing(self@, storage.records()) {
                Some(s) => r matches Err(OrderError::SignatureNotFound(t)) && t@ == s,
                None => r matches Ok(c) && c@ == self@,
            },
    {
        match covers_held(&self.preference, &self.options, storage) {
            Ok(()) => Ok(Cover::new_unchecked(self.preference, self.options)),
            Err(e) => Err(e),
        }
    }
}

/// The configured number of card templates.
#[derive(Debug, Clone, Copy, PartialEq, Eq)]
pub struct MaxCards {
    number: u8,
}

impl MaxCards {
    pub fn new(max: u8) -> (r: MaxCards)
        ensures
            r.spec_number() == max,
    {
        MaxCards { number: max }
    }

    pub closed spec fn spec_number(self) -> u8 {
        self.number
    }

    pub fn number(&self) -> (r: u8)
        ensures
            r == self.spec_number(),
    {
        self.number
    }
}

/// A background colour: red, green and blue.
#[derive(Debug, Clone, Copy, PartialEq, Eq)]
pub struct Rgb {
    channels: [u8; 3],
}

impl Rgb {
    pub fn new(red: u8, green: u8, blue: u8) -> (r: Rgb)
        ensures
            r.spec_channels() == seq![red, green, blue],
    {
        let r = Rgb { channels: [red, green, blue] };
        proof {
            assert(r.channels@ =~= seq![red, green, blue]);
        }
        r
    }

    pub closed spec fn spec_channels(self) -> Seq<u8> {
        self.channels@
    }

    pub fn channels(&self) -> (r: [u8; 3])
        ensures
            r@ == self.spec_channels(),
    {
        self.channels
    }
}

/// The frame around a card.
#[derive(Debug, Clone, Copy, PartialEq, Eq)]
pub enum Frame {
    White,
    Black,
    Wooden,
}

/// What a wish card holds, as mathematical values.
pub struct WishCardModel {
    pub covers: CoverModel,
    pub background: Seq<u8>,
    pub frame: Frame,
    pub message: Seq<char>,
    pub font_type: Seq<char>,
    pub font_size: u8,
    pub template_id: u8,
}

/// The card of an order, with its covers checked and its template within range.
#[derive(Debug)]
pub struct WishCard {
    covers: Cover,
    background: Rgb,
    frame: Frame,
    message: String,
    font_type: String,
    font_size: u8,
    template_id: u8,
}

impl View for WishCard {
    type V = WishCardModel;

    closed spec fn view(&self) -> WishCardModel {
        WishCardModel {
            covers: self.covers@,
            background: self.background.spec_channels(),
            frame: self.frame,
            message: self.message@,
            font_type: self.font_type@,
            font_size: self.font_size,
            template_id: self.template_id,
        }
    }
}

/// A wish card as it arrives.
pub struct UncheckedWishCard {
    pub covers: UncheckedCover,
    pub background: Rgb,
    pub frame: Frame,
    pub message: String,
    pub font_type: String,
    pub font_size: u8,
    pub template_id: u8,
}

impl View for UncheckedWishCard {
    type V = WishCardModel;

    open spec fn view(&self) -> WishCardModel {
        WishCardModel {
            covers: self.covers@,
            background: self.background.spec_channels(),
            frame: self.frame,
            message: self.message@,
            font_type: self.font_type@,
            font_size: self.font_size,
            template_id: self.template_id,
        }
    }
}

/// Why a wish card fails against a store, if it does: no configured number of templates,
/// an unreadable one, a missing cover, or a template beyond the number.
pub enum CardProblem {
    MaxCardsMissing,
    MaxCardsUnreadable,
    CoverMissing(Seq<char>),
    TemplateOutOfRange,
}

pub open spec fn card_problem(w: WishCardModel, held: Map<Seq<char>, Seq<u8>>) -> Option<
    CardProblem,
> {
    if !held.contains_key(MAX_CARDS_KEY@) {
        Some(CardProblem::MaxCardsMissing)
    } else if json_u8(held[MAX_CARDS_KEY@]) is None {
        Some(CardProblem::MaxCardsUnreadable)
    } else if first_missing(w.covers, held) is Some {
        Some(CardProblem::CoverMissing(first_missing(w.covers, held)->0))
    } else if w.template_id > json_u8(held[MAX_CARDS_KEY@])->0 {
        Some(CardProblem::TemplateOutOfRange)
    } else {
        None
    }
}

/// Whether `e` is the error that reports `p`.
pub open spec fn reports_card_problem(e: OrderError, p: CardProblem) -> bool {
    match p {
        CardProblem::MaxCardsMissing => e is MaxCardsNotFound,
        CardProblem::MaxCardsUnreadable => e is DeserializationFault,
        CardProblem::CoverMissing(s) => e matches OrderError::SignatureNotFound(t) && t@ == s,
        CardProblem::TemplateOutOfRange => e is InvalidCard,
    }
}

impl WishCard {
    /// Assembles a card without checking it.
    pub fn new_unchecked(
        covers: Cover,
        background: Rgb,
        frame: Frame,
        message: String,
        font_type: String,
        font_size: u8,
        template_id: u8,
    ) -> (r: WishCard)
        ensures
            r@ == (WishCardModel {
                covers: covers@,
                background: background.spec_channels(),
                frame,
                message: message@,
                font_type: font_type@,
                font_size,
                template_id,
            }),
    {
        WishCard { covers, background, frame, message, font_type, font_size, template_id }
    }

    pub fn covers(&self) -> (r: &Cover)
        ensures
            r@ == self@.covers,
    {
        &self.covers
    }

    pub fn background(&self) -> (r: Rgb)
        ensures
            r.spec_channels() == self@.background,
    {
        self.background
    }

    pub fn frame(&self) -> (r: Frame)
        ensures
            r == self@.frame,
    {
        self.frame
    }

    pub fn message(&self) -> (r: &str)
        ensures
            r@ == self@.message,
    {
        self.message.as_str()
    }

    pub fn font_type(&self) -> (r: &str)
        ensures
            r@ == self@.font_type,
    {
        self.font_type.as_str()
    }

    pub fn font_size(&self) -> (r: u8)
        ensures
            r == self@.font_size,
    {
        self.font_size
    }

    pub fn template_id(&self) -> (r: u8)
        ensures
            r == self@.template_id,
    {
        self.template_id
    }

    /// Checks that the template lies within `max_cards`.
    pub fn invariant_held(&self, max_cards: MaxCards) -> (r: Result<(), OrderError>)
        ensures
            self@.template_id > max_cards.spec_number() ==> r matches Err(OrderError::InvalidCard),
            self@.template_id <= max_cards.spec_number() ==> r is Ok,
    {
        if self.template_id > max_cards.number() {
            Err(OrderError::InvalidCard)
        } else {
            Ok(())
        }
    }
}

impl UncheckedWishCard {
    /// The card, once `storage` is found to hold a readable number of templates, each chosen
    /// newspaper, and the template lies within that number.
    pub fn into_checked<S: Storage>(self, storage: &S) -> (r: Result<WishCard, OrderError>)
        ensures
            match card_problem(self@, storage.records()) {
                Some(p) => r matches Err(e) && reports_card_problem(e, p),
                None => r matches Ok(w) && w@ == self@,
            },
    {
        let stored = match storage.retrieve(MAX_CARDS_KEY) {
            Some(bytes) => bytes,
            None => {
                return Err(OrderError::MaxCardsNotFound);
            },
        };
        let max_cards = match u8_from_json(&stored) {
            Some(n) => MaxCards::new(n),
            None => {
                return Err(OrderError::DeserializationFault);
            },
        };
        let covers = match self.covers.into_checked(storage) {
            Ok(c) => c,
            Err(e) => {
                return Err(e);
            },
        };
        let card = WishCard::new_unchecked(
            covers,
            self.background,
            self.frame,
            self.message,
            self.font_type,
            self.font_size,
            self.template_id,
        );
        match card.invariant_held(max_cards) {
            Ok(()) => Ok(card),
            Err(e) => Err(e),
        }
    }
}

/// What an order holds, as mathematical values.
pub struct OrderModel {
    pub wish_card: WishCardModel,
    pub delivery: DeliveryModel,
    pub created_on_ms: int,
}

/// An order with its card and delivery checked, stamped with its creation time.
#[derive(Debug)]
pub struct Order {
    wish_card: WishCard,
    delivery: Delivery,
    created_on_ms: u64,
}

impl View for Order {
    type V = OrderModel;

    closed spec fn view(&self) -> OrderModel {
        OrderModel {
            wish_card: self.wish_card@,
            delivery: self.delivery@,
            created_on_ms: self.created_on_ms as int,
        }
    }
}

/// An order as a customer sends it.
pub struct OrderRequest {
    pub wish_card: UncheckedWishCard,
    pub delivery: UncheckedDelivery,
}

/// The key an order is stored under: its creation time, `_`, and the phone number.
pub open spec fn order_key(created_on_ms: int, phone: Seq<char>) -> Seq<char> {
    decimal_chars(created_on_ms as nat) + seq!['_'] + phone
}

/// Whether `r` is what checking `request` against `held` at `now` gives: the card's problem
/// first, then the delivery's, else the order stamped with `now`.
pub open spec fn checked_order(
    request: (WishCardModel, DeliveryModel),
    held: Map<Seq<char>, Seq<u8>>,
    now: Clock,
    r: Result<Order, OrderError>,
) -> bool {
    match card_problem(request.0, held) {
        Some(p) => r matches Err(e) && reports_card_problem(e, p),
        None => match delivery_problem(request.1) {
            Some(rule) => r matches Err(OrderError::InvalidDelivery(x)) && x == rule,
            None => r matches Ok(o) && o@ == (OrderModel {
                wish_card: request.0,
                delivery: request.1,
                created_on_ms: now.timestamp as int,
            }),
        },
    }
}

impl OrderRequest {
    pub open spec fn spec_parts(&self) -> (WishCardModel, DeliveryModel) {
        (self.wish_card@, self.delivery@)
    }
}

impl Order {
    /// Assembles an order without checking it.
    pub fn new_unchecked(wish_card: WishCard, delivery: Delivery, created_on_ms: u64) -> (r: Order)
        ensures
            r@ == (OrderModel {
                wish_card: wish_card@,
                delivery: delivery@,
                created_on_ms: created_on_ms as int,
            }),
    {
        Order { wish_card, delivery, created_on_ms }
    }

    /// Checks the request's card against `storage`, then its delivery, and stamps the order
    /// with the time of `now`.
    pub fn construct_checked<S: Storage>(request: OrderRequest, storage: &S, now: Clock) -> (r:
        Result<Order, OrderError>)
        ensures
            checked_order(request.spec_parts(), storage.records(), now, r),
    {
        let wish_card = match request.wish_card.into_checked(storage) {
            Ok(w) => w,
            Err(e) => {
                return Err(e);
            },
        };
        match request.delivery.into_checked() {
            Ok(delivery) => Ok(Order::new_unchecked(wish_card, delivery, now.timestamp)),
            Err(e) => Err(e),
        }
    }

    /// The key the order is stored under.
    pub fn identifier(&self) -> (r: String)
        ensures
            r@ == order_key(self@.created_on_ms, self@.delivery.phone_number),
    {
        proof {
            reveal_strlit("_");
        }
        u64_to_text(self.created_on_ms).concat("_").concat(self.delivery.phone())
    }

    pub fn wish_card(&self) -> (r: &WishCard)
        ensures
            r@ == self@.wish_card,
    {
        &self.wish_card
    }

    pub fn delivery(&self) -> (r: &Delivery)
        ensures
            r@ == self@.delivery,
    {
        &self.delivery
    }

    pub fn created_on_ms(&self) -> (r: u64)
        ensures
            r as int == self@.created_on_ms,
    {
        self.created_on_ms
    }
}

} // verus!
