//! Domain events, one for each successful command.
use vstd::prelude::*;

use crate::json::{tagged_json, tagged_to_json};

verus! {

/// What a successful command changed, with the key of the record it touched.
#[derive(Debug)]
pub enum Event {
    NewspaperCreated(String),
    AddedEndYear(String),
    SpecifiedMaxCards(String),
    SavedOrder(String),
}

pub const NEWSPAPER_CREATED: &'static str = "NewspaperCreated";

pub const ADDED_END_YEAR: &'static str = "AddedEndYear";

pub const SPECIFIED_MAX_CARDS: &'static str = "SpecifiedMaxCards";

pub const SAVED_ORDER: &'static str = "SavedOrder";

impl Event {
    /// The variant's name, as JSON tags it.
    pub open spec fn spec_tag(&self) -> Seq<char> {
        match self {
            Event::NewspaperCreated(_) => NEWSPAPER_CREATED@,
            Event::AddedEndYear(_) => ADDED_END_YEAR@,
            Event::SpecifiedMaxCards(_) => SPECIFIED_MAX_CARDS@,
            Event::SavedOrder(_) => SAVED_ORDER@,
        }
    }

    /// The key the event names.
    pub open spec fn spec_id(&self) -> Seq<char> {
        match self {
            Event::NewspaperCreated(s) => s@,
            Event::AddedEndYear(s) => s@,
            Event::SpecifiedMaxCards(s) => s@,
            Event::SavedOrder(s) => s@,
        }
    }

    pub fn newspaper_created(signature: &str) -> (r: Event)
        ensures
            r is NewspaperCreated,
            r.spec_id() == signature@,
    {
        Event::NewspaperCreated(String::from_str(signature))
    }

    pub fn added_end_year(signature: &str) -> (r: Event)
        ensures
            r is AddedEndYear,
            r.spec_id() == signature@,
    {
        Event::AddedEndYear(String::from_str(signature))
    }

    pub fn specified_max_cards(id: &str) -> (r: Event)
        ensures
            r is SpecifiedMaxCards,
            r.spec_id() == id@,
    {
        Event::SpecifiedMaxCards(String::from_str(id))
    }

    pub fn saved_order(id: &str) -> (r: Event)
        ensures
            r is SavedOrder,
            r.spec_id() == id@,
    {
        Event::SavedOrder(String::from_str(id))
    }

    pub fn tag(&self) -> (r: &'static str)
        ensures
            r@ == self.spec_tag(),
    {
        match self {
            Event::NewspaperCreated(_) => NEWSPAPER_CREATED,
            Event::AddedEndYear(_) => ADDED_END_YEAR,
            Event::SpecifiedMaxCards(_) => SPECIFIED_MAX_CARDS,
            Event::SavedOrder(_) => SAVED_ORDER,
        }
    }

    pub fn id(&self) -> (r: &str)
        ensures
            r@ == self.spec_id(),
    {
        match self {
            Event::NewspaperCreated(s) => s.as_str(),
            Event::AddedEndYear(s) => s.as_str(),
            Event::SpecifiedMaxCards(s) => s.as_str(),
            Event::SavedOrder(s) => s.as_str(),
        }
    }

    /// The event as JSON: `{"<variant>":"<key>"}`.
    pub fn serialize(&self) -> (r: Option<Vec<u8>>)
        ensures
            r matches Some(b) && b@ == tagged_json(self.spec_tag(), self.spec_id()),
    {
        tagged_to_json(self.tag(), self.id())
    }
}

} // verus!
