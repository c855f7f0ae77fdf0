//! The command and query services: check, look for the key, persist, announce.
use vstd::prelude::*;

use crate::calendar::{Clock, Date, Year, weekday_of};
use crate::delivery::{DeliveryModel, delivery_problem};
use crate::host;
use crate::json::{decimal_bytes, json_string, json_u8, str_to_json, tagged_json, u8_from_json, u8_to_json};
use crate::newspaper::{
    Newspaper,
    NewspaperError,
    NewspaperModel,
    QueryNewspaperDTO,
    UncheckedNewspaper,
    listed_on,
    year_problem,
};
use crate::order::{
    MAX_CARDS_KEY,
    NOT_FOUND_PREFIX,
    NOT_FOUND_SUFFIX,
    Order,
    OrderError,
    OrderModel,
    OrderRequest,
    WishCardModel,
    card_problem,
    first_missing,
    order_key,
    reports_card_problem,
};
use crate::record::{decode_newspaper, decoded_newspaper, encode_newspaper, encode_order, newspaper_record, order_record};
use crate::response::{ADDED_END_YEAR, Event, NEWSPAPER_CREATED, SAVED_ORDER, SPECIFIED_MAX_CARDS};
use crate::signature::{SIGN, Signature, next_letter};
use crate::storage::{Storage, among, holds_record_in, key_in_range};

verus! {

/// Host event identifier of a created newspaper.
pub const NEWSPAPER_CREATED_ID: &'static str = "dnevest_n_n";

/// Host event identifier of an added end year.
pub const END_YEAR_ID: &'static str = "dnevest_end_y";

/// Host event identifier of a new number of card templates.
pub const MAX_CARDS_ID: &'static str = "dnevest_max_card";

/// Host event identifier of a saved order.
pub const NEW_ORDER_ID: &'static str = "dnevest_n_o";

/// Errors of the services.
#[derive(Debug)]
pub enum Error {
    SerializationFault,
    DuplicateSignature,
    DomainError(NewspaperError),
    DeserializationFault,
    NewspaperNotFound,
    DuplicateOrder,
    InvalidOrder(OrderError),
}

impl Error {
    pub open spec fn spec_message(&self) -> Seq<char> {
        match self {
            Error::SerializationFault => "Problem while serialization"@,
            Error::DuplicateSignature =>
                "Cannot create the newspaper because this signature already exists"@,
            Error::DomainError(e) => "Newspaper domain error: "@ + e.spec_message(),
            Error::DeserializationFault => "Problem while deserialization"@,
            Error::NewspaperNotFound => "Newspaper not found"@,
            Error::DuplicateOrder => "Cannot create the order because it already exists"@,
            Error::InvalidOrder(e) => e.spec_message(),
        }
    }

    /// The error as a sentence for the caller; a missing cover is named in it.
    pub fn message(&self) -> (r: String)
        ensures
            r@ == self.spec_message(),
    {
        match self {
            Error::SerializationFault => String::from_str("Problem while serialization"),
            Error::DuplicateSignature => String::from_str(
                "Cannot create the newspaper because this signature already exists",
            ),
            Error::DomainError(e) => String::from_str("Newspaper domain error: ").concat(
                e.message().as_str(),
            ),
            Error::DeserializationFault => String::from_str("Problem while deserialization"),
            Error::NewspaperNotFound => String::from_str("Newspaper not found"),
            Error::DuplicateOrder => String::from_str(
                "Cannot create the order because it already exists",
            ),
            Error::InvalidOrder(e) => e.message(),
        }
    }

    /// The message as a JSON string, the shape in which errors cross to the host.
    pub fn serialize(&self) -> (r: Vec<u8>)
        ensures
            r@ == json_string(self.spec_message()),
    {
        match str_to_json(self.message().as_str()) {
            Some(b) => b,
            None => Vec::new(),
        }
    }
}

/// Whether `r` and the store's change from `before` to `after` are what persisting `record`
/// under `key` and announcing it give: one host event `event_id` carrying `{tag: payload}`,
/// and the key set to the record.
pub open spec fn stored_and_announced(
    before: Map<Seq<char>, Seq<u8>>,
    after: Map<Seq<char>, Seq<u8>>,
    r: Result<Vec<host::Event>, Error>,
    key: Seq<char>,
    record: Seq<u8>,
    event_id: Seq<char>,
    tag: Seq<char>,
    payload: Seq<char>,
) -> bool {
    &&& r matches Ok(events) && events.len() == 1 && events[0].id@ == event_id
        && events[0].content@ == tagged_json(tag, payload)
    &&& after == before.insert(key, record)
}

/// Persists `record` under `key` and announces `event` as the host event `event_id`; without
/// a record nothing is persisted and the result is a serialization fault.
pub fn persist_and_emit_event<S: Storage>(
    storage: &mut S,
    key: &str,
    record: Option<Vec<u8>>,
    event_id: &str,
    event: Event,
) -> (r: Result<Vec<host::Event>, Error>)
    ensures
        match record {
            Some(v) => stored_and_announced(
                old(storage).records(),
                final(storage).records(),
                r,
                key@,
                v@,
                event_id@,
                event.spec_tag(),
                event.spec_id(),
            ),
            None => r matches Err(Error::SerializationFault) && final(storage).records() == old(
                storage,
            ).records(),
        },
{
    let bytes = match record {
        Some(b) => b,
        None => {
            return Err(Error::SerializationFault);
        },
    };
    let content = match event.serialize() {
        Some(c) => c,
        None => Vec::new(),
    };
    storage.persist(key, &bytes);
    let mut events: Vec<host::Event> = Vec::new();
    events.push(host::Event { id: String::from_str(event_id), content });
    Ok(events)
}

/// What storing the checked newspaper `n` does to a store holding `before`.
pub open spec fn newspaper_stored(
    before: Map<Seq<char>, Seq<u8>>,
    after: Map<Seq<char>, Seq<u8>>,
    n: NewspaperModel,
    r: Result<Vec<host::Event>, Error>,
) -> bool {
    if before.contains_key(n.signature) {
        r matches Err(Error::DuplicateSignature) && after == before
    } else {
        stored_and_announced(
            before,
            after,
            r,
            n.signature,
            newspaper_record(n),
            NEWSPAPER_CREATED_ID@,
            NEWSPAPER_CREATED@,
            n.signature,
        )
    }
}

/// Stores a checked newspaper under its signature, unless one is stored there already.
pub fn store_newspaper<S: Storage>(storage: &mut S, newspaper: Newspaper) -> (r: Result<
    Vec<host::Event>,
    Error,
>)
    ensures
        newspaper_stored(old(storage).records(), final(storage).records(), newspaper@, r),
{
    let signature = newspaper.identificator();
    if storage.retrieve(signature).is_some() {
        return Err(Error::DuplicateSignature);
    }
    let record = encode_newspaper(&newspaper);
    persist_and_emit_event(
        storage,
        signature,
        record,
        NEWSPAPER_CREATED_ID,
        Event::newspaper_created(signature),
    )
}

/// What creating the newspaper record `input` at year `current` does to a store holding
/// `before`: a broken rule on years first, then a taken signature.
pub open spec fn newspaper_creation(
    before: Map<Seq<char>, Seq<u8>>,
    after: Map<Seq<char>, Seq<u8>>,
    input: NewspaperModel,
    current: int,
    r: Result<Vec<host::Event>, Error>,
) -> bool {
    match year_problem(input.start_year, input.end_year, current) {
        Some(rule) => r matches Err(Error::DomainError(NewspaperError::InvalidYear(x)))
            && x == rule && after == before,
        None => newspaper_stored(before, after, input, r),
    }
}

/// Checks a newspaper record against the year of `now` and stores it under its signature.
pub fn new_newspaper<S: Storage>(storage: &mut S, input: UncheckedNewspaper, now: Clock) -> (r:
    Result<Vec<host::Event>, Error>)
    ensures
        newspaper_creation(
            old(storage).records(),
            final(storage).records(),
            input@,
            now.spec_year(),
            r,
        ),
{
    match input.into_checked(now.year()) {
        Ok(newspaper) => store_newspaper(storage, newspaper),
        Err(e) => Err(Error::DomainError(e)),
    }
}

/// What closing the newspaper `m` with `final_year` at year `current` gives: `m`'s own
/// years first, then an existing last year, then the years with the new last year.
pub open spec fn end_year_outcome(m: NewspaperModel, final_year: int, current: int) -> Result<
    NewspaperModel,
    NewspaperError,
> {
    match year_problem(m.start_year, m.end_year, current) {
        Some(rule) => Err(NewspaperError::InvalidYear(rule)),
        None => if m.end_year is Some {
            Err(NewspaperError::EndYearExists)
        } else {
            match year_problem(m.start_year, Some(final_year), current) {
                Some(rule) => Err(NewspaperError::InvalidYear(rule)),
                None => Ok(NewspaperModel { end_year: Some(final_year), ..m }),
            }
        },
    }
}

/// The newspaper that closing `stored` with `final_year` at `now` gives.
pub fn end_year_update(stored: UncheckedNewspaper, final_year: Year, now: Clock) -> (r: Result<
    Newspaper,
    Error,
>)
    ensures
        match end_year_outcome(stored@, final_year as int, now.spec_year()) {
            Err(e) => r matches Err(Error::DomainError(x)) && x == e,
            Ok(m) => r matches Ok(n) && n@ == m,
        },
{
    match stored.into_checked(now.year()) {
        Ok(newspaper) => match newspaper.add_end_year(final_year, now) {
            Ok(n) => Ok(n),
            Err(e) => Err(Error::DomainError(e)),
        },
        Err(e) => Err(Error::DomainError(e)),
    }
}

/// What closing the stored newspaper `signature` with `final_year` at year `current` does
/// to a store holding `before`: no record, an unreadable record, or a failed closing leave
/// the store as it was; else the closed newspaper's record replaces the old one.
pub open spec fn end_year_definition(
    before: Map<Seq<char>, Seq<u8>>,
    after: Map<Seq<char>, Seq<u8>>,
    signature: Seq<char>,
    final_year: int,
    current: int,
    r: Result<Vec<host::Event>, Error>,
) -> bool {
    if !before.contains_key(signature) {
        r matches Err(Error::NewspaperNotFound) && after == before
    } else {
        match decoded_newspaper(before[signature]) {
            None => r matches Err(Error::DeserializationFault) && after == before,
            Some(m) => match end_year_outcome(m, final_year, current) {
                Err(e) => r matches Err(Error::DomainError(x)) && x == e && after == before,
                Ok(closed) => stored_and_announced(
                    before,
                    after,
                    r,
                    signature,
                    newspaper_record(closed),
                    END_YEAR_ID@,
                    ADDED_END_YEAR@,
                    signature,
                ),
            },
        }
    }
}

/// Closes the stored newspaper `signature` with `final_year`, judged at `now`.
pub fn define_end_year<S: Storage>(
    storage: &mut S,
    signature: &str,
    final_year: Year,
    now: Clock,
) -> (r: Result<Vec<host::Event>, Error>)
    ensures
        end_year_definition(
            old(storage).records(),
            final(storage).records(),
            signature@,
            final_year as int,
            now.spec_year(),
            r,
        ),
{
    let bytes = match storage.retrieve(signature) {
        Some(b) => b,
        None => {
            return Err(Error::NewspaperNotFound);
        },
    };
    let stored = match decode_newspaper(&bytes) {
        Some(n) => n,
        None => {
            return Err(Error::DeserializationFault);
        },
    };
    let newspaper = match end_year_update(stored, final_year, now) {
        Ok(n) => n,
        Err(e) => {
            return Err(e);
        },
    };
    let record = encode_newspaper(&newspaper);
    persist_and_emit_event(storage, signature, record, END_YEAR_ID, Event::added_end_year(signature))
}

/// Whether `held` already records `max` templates, readably.
pub open spec fn max_cards_recorded(held: Map<Seq<char>, Seq<u8>>, max: u8) -> bool {
    held.contains_key(MAX_CARDS_KEY@) && json_u8(held[MAX_CARDS_KEY@]) == Some(max)
}

/// What setting the number of card templates to `max` does to a store holding `before`:
/// nothing when that number is recorded already; else the number, written in decimal, is
/// stored and announced, and reads back as `max`.
pub open spec fn max_cards_update(
    before: Map<Seq<char>, Seq<u8>>,
    after: Map<Seq<char>, Seq<u8>>,
    max: u8,
    r: Result<Vec<host::Event>, Error>,
) -> bool {
    if max_cards_recorded(before, max) {
        r matches Ok(events) && events.len() == 0 && after == before
    } else {
        &&& stored_and_announced(
            before,
            after,
            r,
            MAX_CARDS_KEY@,
            decimal_bytes(max as nat),
            MAX_CARDS_ID@,
            SPECIFIED_MAX_CARDS@,
            MAX_CARDS_KEY@,
        )
        &&& max_cards_recorded(after, max)
    }
}

/// Sets the number of card templates to `max`; a number already recorded is left as is.
pub fn configure_max_cards<S: Storage>(storage: &mut S, max: u8) -> (r: Result<
    Vec<host::Event>,
    Error,
>)
    ensures
        max_cards_update(old(storage).records(), final(storage).records(), max, r),
{
    let needs_update = match storage.retrieve(MAX_CARDS_KEY) {
        Some(bytes) => match u8_from_json(&bytes) {
            Some(current) => current != max,
            None => true,
        },
        None => true,
    };
    if !needs_update {
        return Ok(Vec::new());
    }
    persist_and_emit_event(
        storage,
        MAX_CARDS_KEY,
        u8_to_json(max),
        MAX_CARDS_ID,
        Event::specified_max_cards(MAX_CARDS_KEY),
    )
}

/// Setting the same number of card templates twice: the second call emits no event and
/// leaves the store as the first left it.
pub proof fn lemma_max_cards_idempotent(
    held: Map<Seq<char>, Seq<u8>>,
    max: u8,
    after_first: Map<Seq<char>, Seq<u8>>,
    first: Result<Vec<host::Event>, Error>,
    after_second: Map<Seq<char>, Seq<u8>>,
    second: Result<Vec<host::Event>, Error>,
)
    requires
        max_cards_update(held, after_first, max, first),
        max_cards_update(after_first, after_second, max, second),
    ensures
        second matches Ok(events) && events.len() == 0,
        after_second == after_first,
        !max_cards_recorded(held, max) ==> (first matches Ok(events) && events.len() == 1),
{
}

/// The order that checking `request` at `now` gives, as a model.
pub open spec fn placed_order(request: (WishCardModel, DeliveryModel), now: Clock) -> OrderModel {
    OrderModel { wish_card: request.0, delivery: request.1, created_on_ms: now.timestamp as int }
}

/// What placing the order `request` at `now` does to a store holding `before`: the card's
/// problem first, then the delivery's, then a taken key; else the order is stored under its
/// key and announced.
pub open spec fn order_placement(
    before: Map<Seq<char>, Seq<u8>>,
    after: Map<Seq<char>, Seq<u8>>,
    request: (WishCardModel, DeliveryModel),
    now: Clock,
    r: Result<Vec<host::Event>, Error>,
) -> bool {
    match card_problem(request.0, before) {
        Some(p) => r matches Err(Error::InvalidOrder(e)) && reports_card_problem(e, p)
            && after == before,
        None => match delivery_problem(request.1) {
            Some(rule) => r matches Err(Error::InvalidOrder(OrderError::InvalidDelivery(x)))
                && x == rule && after == before,
            None => {
                let key = order_key(now.timestamp as int, request.1.phone_number);
                if before.contains_key(key) {
                    r matches Err(Error::DuplicateOrder) && after == before
                } else {
                    stored_and_announced(
                        before,
                        after,
                        r,
                        key,
                        order_record(placed_order(request, now)),
                        NEW_ORDER_ID@,
                        SAVED_ORDER@,
                        key,
                    )
                }
            },
        },
    }
}

/// Checks an order against the store, stamps it with `now`, and stores it under its key
/// unless an order is stored there already.
pub fn place_order<S: Storage>(storage: &mut S, request: OrderRequest, now: Clock) -> (r: Result<
    Vec<host::Event>,
    Error,
>)
    ensures
        order_placement(
            old(storage).records(),
            final(storage).records(),
            request.spec_parts(),
            now,
            r,
        ),
{
    let order = match Order::construct_checked(request, storage, now) {
        Ok(o) => o,
        Err(e) => {
            return Err(Error::InvalidOrder(e));
        },
    };
    let key = order.identifier();
    if storage.retrieve(key.as_str()).is_some() {
        return Err(Error::DuplicateOrder);
    }
    let record = encode_order(&order);
    persist_and_emit_event(
        storage,
        key.as_str(),
        record,
        NEW_ORDER_ID,
        Event::saved_order(key.as_str()),
    )
}

/// Relies on `ToString` on a `char`: the one-character text.
#[verifier::external_body]
fn char_to_text(c: char) -> (r: String)
    ensures
        r@ == seq![c],
{
    c.to_string()
}

/// The first key after every signature: the letter after the marker.
pub open spec fn signatures_end() -> Seq<char> {
    seq!['Г']
}

/// What a by-date query lists for the record `b`: signature and name, if the record reads,
/// its years hold against `current` and it comes out on `day_index` of `year`.
pub open spec fn by_date_entry(b: Seq<u8>, day_index: int, year: int, current: int) -> Option<
    (Seq<char>, Seq<char>),
> {
    match decoded_newspaper(b) {
        Some(m) => if listed_on(m, day_index, year, current) {
            Some((m.signature, m.name))
        } else {
            None
        },
        None => None,
    }
}

/// Whether some record of `held` under a signature key lists `e`.
pub open spec fn held_entry(
    held: Map<Seq<char>, Seq<u8>>,
    e: (Seq<char>, Seq<char>),
    day_index: int,
    year: int,
    current: int,
) -> bool {
    exists|k: Seq<char>|
        held.contains_key(k) && key_in_range(k, seq![SIGN], signatures_end()) && by_date_entry(
            #[trigger] held[k],
            day_index,
            year,
            current,
        ) == Some(e)
}

/// Whether one of `dtos` lists `e`.
pub open spec fn lists(dtos: Seq<QueryNewspaperDTO>, e: (Seq<char>, Seq<char>)) -> bool {
    exists|j: int| 0 <= j < dtos.len() && dtos[j]@ == e
}

/// Whether `r` answers a by-date query for the weekday and year of `date` at year `current`
/// from a store holding `held`: each entry comes from a record under a signature key, and
/// each such record that reads, holds and comes out on that day is listed.
pub open spec fn by_date_answer(
    held: Map<Seq<char>, Seq<u8>>,
    date: (int, int, int),
    current: int,
    r: Seq<QueryNewspaperDTO>,
) -> bool {
    let day = weekday_of(date.0, date.1, date.2);
    &&& forall|j: int| 0 <= j < r.len() ==> held_entry(held, #[trigger] r[j]@, day, date.0, current)
    &&& forall|k: Seq<char>|
        #![trigger held.contains_key(k)]
        held.contains_key(k) && key_in_range(k, seq![SIGN], signatures_end()) && by_date_entry(
            held[k],
            day,
            date.0,
            current,
        ) is Some ==> lists(r, by_date_entry(held[k], day, date.0, current)->0)
}

/// The newspapers stored in `storage` that come out on `date`, judged at the year of `now`;
/// records that do not read, or whose years do not hold, are passed over.
pub fn newspapers_by_date<S: Storage>(storage: &S, date: &Date, now: Clock) -> (r: Vec<
    QueryNewspaperDTO,
>)
    ensures
        by_date_answer(storage.records(), date@, now.spec_year(), r@),
{
    let day = date.weekday_index();
    let year = date.year();
    let current = now.year();
    let start = char_to_text(SIGN);
    let end = char_to_text(next_letter(SIGN));
    assert(end@ == signatures_end());
    let records = storage.retrieve_range(start.as_str(), end.as_str());
    let ghost held = storage.records();
    let mut out: Vec<QueryNewspaperDTO> = Vec::new();
    let mut i: usize = 0;
    while i < records.len()
        invariant
            i <= records.len(),
            held == storage.records(),
            day < 7,
            day as int == weekday_of(date@.0, date@.1, date@.2),
            year as int == date@.0,
            current as int == now.spec_year(),
            start@ == seq![SIGN],
            end@ == signatures_end(),
            forall|m: int|
                0 <= m < records.len() ==> holds_record_in(
                    held,
                    start@,
                    end@,
                    #[trigger] records@[m]@,
                ),
            forall|j: int|
                0 <= j < out.len() ==> held_entry(
                    held,
                    #[trigger] out@[j]@,
                    day as int,
                    year as int,
                    current as int,
                ),
            forall|m: int|
                0 <= m < i && by_date_entry(
                    #[trigger] records@[m]@,
                    day as int,
                    year as int,
                    current as int,
                ) is Some ==> lists(
                    out@,
                    by_date_entry(records@[m]@, day as int, year as int, current as int)->0,
                ),
        decreases records.len() - i,
    {
        let ghost b = records@[i as int]@;
        let ghost before = out@;
        match decode_newspaper(&records[i]) {
            Some(n) => {
                if n.check(current).is_ok() && n.published_on(day, year) {
                    let dto = QueryNewspaperDTO::new(
                        String::from_str(n.signature.as_str()),
                        n.name.clone(),
                    );
                    out.push(dto);
                    proof {
                        assert(holds_record_in(held, start@, end@, b));
                        let k = choose|k: Seq<char>|
                            held.contains_key(k) && key_in_range(k, start@, end@) && held[k] == b;
                        assert(by_date_entry(held[k], day as int, year as int, current as int)
                            == Some(out@[before.len() as int]@));
                        assert forall|j: int| 0 <= j < out.len() implies held_entry(
                            held,
                            #[trigger] out@[j]@,
                            day as int,
                            year as int,
                            current as int,
                        ) by {
                            if j < before.len() {
                                assert(out@[j] == before[j]);
                            }
                        }
                    }
                }
            },
            None => {},
        }
        proof {
            assert forall|m: int|
                0 <= m < i + 1 && by_date_entry(
                    #[trigger] records@[m]@,
                    day as int,
                    year as int,
                    current as int,
                ) is Some implies lists(
                out@,
                by_date_entry(records@[m]@, day as int, year as int, current as int)->0,
            ) by {
                let e = by_date_entry(records@[m]@, day as int, year as int, current as int)->0;
                if m < i {
                    let j = choose|j: int| 0 <= j < before.len() && before[j]@ == e;
                    assert(out@[j] == before[j]);
                } else {
                    assert(out@[before.len() as int]@ == e);
                }
            }
        }
        i = i + 1;
    }
    proof {
        assert forall|k: Seq<char>|
            #![trigger held.contains_key(k)]
            held.contains_key(k) && key_in_range(k, seq![SIGN], signatures_end()) && by_date_entry(
                held[k],
                day as int,
                year as int,
                current as int,
            ) is Some implies lists(
            out@,
            by_date_entry(held[k], day as int, year as int, current as int)->0,
        ) by {
            assert(among(records@, held[k]));
            let m = choose|m: int| 0 <= m < records.len() && records@[m]@ == held[k];
            assert(by_date_entry(records@[m]@, day as int, year as int, current as int) is Some);
        }
    }
    out
}

/// Whether `r` is what crosses to the host for the service result `inner`: the same events,
/// or the error's message written as a JSON string.
pub open spec fn at_boundary(inner: Result<Vec<host::Event>, Error>, r: Result<Vec<host::Event>, Vec<u8>>) -> bool {
    match inner {
        Ok(v) => r == Ok::<Vec<host::Event>, Vec<u8>>(v),
        Err(e) => r matches Err(b) && b@ == json_string(e.spec_message()),
    }
}

fn to_boundary(inner: Result<Vec<host::Event>, Error>) -> (r: Result<Vec<host::Event>, Vec<u8>>)
    ensures
        at_boundary(inner, r),
{
    match inner {
        Ok(v) => Ok(v),
        Err(e) => Err(e.serialize()),
    }
}

/// The create-newspaper command, with its error written for the host.
pub fn create_newspaper<S: Storage>(storage: &mut S, input: UncheckedNewspaper, now: Clock) -> (r:
    Result<Vec<host::Event>, Vec<u8>>)
    ensures
        exists|inner: Result<Vec<host::Event>, Error>|
            newspaper_creation(
                old(storage).records(),
                final(storage).records(),
                input@,
                now.spec_year(),
                inner,
            ) && at_boundary(inner, r),
{
    let ghost view = input@;
    let inner = new_newspaper(storage, input, now);
    proof {
        assert(newspaper_creation(
            old(storage).records(),
            final(storage).records(),
            view,
            now.spec_year(),
            inner,
        ));
    }
    to_boundary(inner)
}

/// The add-final-year command, with its error written for the host.
pub fn add_final_year<S: Storage>(
    storage: &mut S,
    signature: &Signature,
    final_year: Year,
    now: Clock,
) -> (r: Result<Vec<host::Event>, Vec<u8>>)
    ensures
        exists|inner: Result<Vec<host::Event>, Error>|
            end_year_definition(
                old(storage).records(),
                final(storage).records(),
                signature@,
                final_year as int,
                now.spec_year(),
                inner,
            ) && at_boundary(inner, r),
{
    let inner = define_end_year(storage, signature.as_str(), final_year, now);
    proof {
        assert(end_year_definition(
            old(storage).records(),
            final(storage).records(),
            signature@,
            final_year as int,
            now.spec_year(),
            inner,
        ));
    }
    to_boundary(inner)
}

/// The specify-max-cards command, with its error written for the host.
pub fn specify_max_cards<S: Storage>(storage: &mut S, max_number: u8) -> (r: Result<
    Vec<host::Event>,
    Vec<u8>,
>)
    ensures
        exists|inner: Result<Vec<host::Event>, Error>|
            max_cards_update(old(storage).records(), final(storage).records(), max_number, inner)
                && at_boundary(inner, r),
{
    let inner = configure_max_cards(storage, max_number);
    proof {
        assert(max_cards_update(old(storage).records(), final(storage).records(), max_number, inner));
    }
    to_boundary(inner)
}

/// The create-order command, with its error written for the host.
pub fn create_order<S: Storage>(storage: &mut S, order: OrderRequest, now: Clock) -> (r: Result<
    Vec<host::Event>,
    Vec<u8>,
>)
    ensures
        exists|inner: Result<Vec<host::Event>, Error>|
            order_placement(
                old(storage).records(),
                final(storage).records(),
                order.spec_parts(),
                now,
                inner,
            ) && at_boundary(inner, r),
{
    let ghost parts = order.spec_parts();
    let inner = place_order(storage, order, now);
    proof {
        assert(order_placement(old(storage).records(), final(storage).records(), parts, now, inner));
    }
    to_boundary(inner)
}

/// A signature taken already: creating a newspaper under it fails and leaves the store as it
/// was; when the newspaper's years hold, the failure is the duplicate signature, whose
/// message says it exists already.
pub proof fn lemma_duplicate_newspaper_refused(
    before: Map<Seq<char>, Seq<u8>>,
    after: Map<Seq<char>, Seq<u8>>,
    input: NewspaperModel,
    current: int,
    r: Result<Vec<host::Event>, Error>,
)
    requires
        newspaper_creation(before, after, input, current, r),
        before.contains_key(input.signature),
    ensures
        r is Err,
        after == before,
        year_problem(input.start_year, input.end_year, current) is None ==> (r matches Err(e)
            && e is DuplicateSignature && e.spec_message()
            == "Cannot create the newspaper because this signature already exists"@),
{
}

/// A chosen cover missing from the store: once the number of card templates is readable,
/// placing the order fails on the first missing signature, names it in its message, and
/// leaves the store as it was.
pub proof fn lemma_missing_cover_named(
    before: Map<Seq<char>, Seq<u8>>,
    after: Map<Seq<char>, Seq<u8>>,
    request: (WishCardModel, DeliveryModel),
    now: Clock,
    r: Result<Vec<host::Event>, Error>,
    missing: Seq<char>,
)
    requires
        order_placement(before, after, request, now, r),
        before.contains_key(MAX_CARDS_KEY@),
        json_u8(before[MAX_CARDS_KEY@]) is Some,
        first_missing(request.0.covers, before) == Some(missing),
    ensures
        r matches Err(e) && e.spec_message() == NOT_FOUND_PREFIX@ + missing + NOT_FOUND_SUFFIX@,
        after == before,
{
}

} // verus!
