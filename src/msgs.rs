//! The closed set of commands and queries, and their routing to the services.
use vstd::prelude::*;

use crate::calendar::{Clock, Date, Year};
use crate::host;
use crate::newspaper::{QueryNewspaperDTO, UncheckedNewspaper};
use crate::order::OrderRequest;
use crate::services::{
    Error as ServiceError,
    add_final_year,
    at_boundary,
    by_date_answer,
    create_newspaper,
    create_order,
    end_year_definition,
    max_cards_update,
    newspaper_creation,
    newspapers_by_date,
    order_placement,
    specify_max_cards,
};
use crate::signature::Signature;
use crate::storage::Storage;

verus! {

/// A command: it changes the store and emits events.
pub enum ExecuteMsg {
    CreateNewspaper { input: UncheckedNewspaper },
    AddFinalYear { signature: Signature, final_year: Year },
    SpecifyMaxCards { max_number: u8 },
    CreateOrder { order: OrderRequest },
}

/// A query: it reads the store.
pub enum QueryMsg {
    NewspapersByDate { date: Date },
}

/// Runs `msg` against `storage`, at the clock reading `now`.
pub fn execute<S: Storage>(storage: &mut S, now: Clock, msg: ExecuteMsg) -> (r: Result<
    Vec<host::Event>,
    Vec<u8>,
>)
    ensures
        exists|inner: Result<Vec<host::Event>, ServiceError>|
            at_boundary(inner, r) && match msg {
                ExecuteMsg::CreateNewspaper { input } => newspaper_creation(
                    old(storage).records(),
                    final(storage).records(),
                    input@,
                    now.spec_year(),
                    inner,
                ),
                ExecuteMsg::AddFinalYear { signature, final_year } => end_year_definition(
                    old(storage).records(),
                    final(storage).records(),
                    signature@,
                    final_year as int,
                    now.spec_year(),
                    inner,
                ),
                ExecuteMsg::SpecifyMaxCards { max_number } => max_cards_update(
                    old(storage).records(),
                    final(storage).records(),
                    max_number,
                    inner,
                ),
                ExecuteMsg::CreateOrder { order } => order_placement(
                    old(storage).records(),
                    final(storage).records(),
                    order.spec_parts(),
                    now,
                    inner,
                ),
            },
{
    match msg {
        ExecuteMsg::CreateNewspaper { input } => create_newspaper(storage, input, now),
        ExecuteMsg::AddFinalYear { signature, final_year } => add_final_year(
            storage,
            &signature,
            final_year,
            now,
        ),
        ExecuteMsg::SpecifyMaxCards { max_number } => specify_max_cards(storage, max_number),
        ExecuteMsg::CreateOrder { order } => create_order(storage, order, now),
    }
}

/// Answers `msg` from `storage`, at the clock reading `now`.
pub fn query<S: Storage>(storage: &S, now: Clock, msg: &QueryMsg) -> (r: Vec<QueryNewspaperDTO>)
    ensures
        match msg {
            QueryMsg::NewspapersByDate { date } => by_date_answer(
                storage.records(),
                date@,
                now.spec_year(),
                r@,
            ),
        },
{
    match msg {
        QueryMsg::NewspapersByDate { date } => newspapers_by_date(storage, date, now),
    }
}

} // verus!
