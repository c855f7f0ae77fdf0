//! Newspapers: identity, validity window and weekly schedule.
use vstd::prelude::*;

use crate::calendar::{Clock, Date, Year, weekday_of};
use crate::signature::Signature;

verus! {

/// On which days of the week (0 Monday .. 6 Sunday) a newspaper comes out.
#[derive(Debug, Clone, Copy, PartialEq, Eq)]
pub struct WeeklyFrequency {
    days: [bool; 7],
}

impl View for WeeklyFrequency {
    type V = Seq<bool>;

    closed spec fn view(&self) -> Seq<bool> {
        self.days@
    }
}

impl WeeklyFrequency {
    pub fn new(days: [bool; 7]) -> (r: WeeklyFrequency)
        ensures
            r@ == days@,
    {
        WeeklyFrequency { days }
    }

    /// The seven flags, Monday first.
    pub fn days(&self) -> (r: [bool; 7])
        ensures
            r@ == self@,
    {
        self.days
    }

    /// Whether the newspaper comes out on day `day_index` of the week.
    pub fn published_on(&self, day_index: usize) -> (r: bool)
        requires
            day_index < 7,
        ensures
            r == self@[day_index as int],
    {
        self.days[day_index]
    }
}

/// Which rule on years a newspaper broke.
#[derive(Debug, Clone, Copy, PartialEq, Eq)]
pub enum YearRule {
    /// The first year lies after the current year.
    StartInFuture,
    /// The first year lies after the last year.
    StartAfterEnd,
}

impl YearRule {
    pub open spec fn spec_message(self) -> Seq<char> {
        match self {
            YearRule::StartInFuture => "start_year cannot be in the future"@,
            YearRule::StartAfterEnd => "start_year cannot be after end_year"@,
        }
    }

    pub fn message(&self) -> (r: &'static str)
        ensures
            r@ == self.spec_message(),
    {
        match self {
            YearRule::StartInFuture => "start_year cannot be in the future",
            YearRule::StartAfterEnd => "start_year cannot be after end_year",
        }
    }
}

/// Errors of the newspaper domain.
#[derive(Debug, Clone, Copy, PartialEq, Eq)]
pub enum NewspaperError {
    DateParsing,
    SignatureMismatch,
    InvalidYear(YearRule),
    EndYearExists,
}

impl NewspaperError {
    pub open spec fn spec_message(self) -> Seq<char> {
        match self {
            NewspaperError::DateParsing => "[Newspaper] Error parsing date"@,
            NewspaperError::SignatureMismatch =>
                "[Newspaper] Signature does not match the required pattern."@,
            NewspaperError::InvalidYear(rule) => "Invalid year: "@ + rule.spec_message(),
            NewspaperError::EndYearExists => "[Newspaper] The end year already exists."@,
        }
    }

    /// The error as a sentence for the caller.
    pub fn message(&self) -> (r: String)
        ensures
            r@ == self.spec_message(),
    {
        match self {
            NewspaperError::DateParsing => String::from_str("[Newspaper] Error parsing date"),
            NewspaperError::SignatureMismatch => String::from_str(
                "[Newspaper] Signature does not match the required pattern.",
            ),
            NewspaperError::InvalidYear(rule) => String::from_str("Invalid year: ").concat(
                rule.message(),
            ),
            NewspaperError::EndYearExists => String::from_str(
                "[Newspaper] The end year already exists.",
            ),
        }
    }
}

/// The first broken rule on years, given the current year, if any.
pub open spec fn year_problem(start: int, end: Option<int>, current: int) -> Option<YearRule> {
    if start > current {
        Some(YearRule::StartInFuture)
    } else if end matches Some(e) && start > e {
        Some(YearRule::StartAfterEnd)
    } else {
        None
    }
}

/// Whether `year` lies in the window from `start` to `end` (open when absent).
pub open spec fn runs_in(start: int, end: Option<int>, year: int) -> bool {
    start <= year && (end matches Some(e) ==> year <= e)
}

pub open spec fn opt_year(y: Option<Year>) -> Option<int> {
    match y {
        Some(v) => Some(v as int),
        None => None,
    }
}

/// The rules on years: the first year is not after `current_year`, nor after the last year.
pub fn check_years(start_year: Year, end_year: Option<Year>, current_year: Year) -> (r: Result<
    (),
    NewspaperError,
>)
    ensures
        r == match year_problem(start_year as int, opt_year(end_year), current_year as int) {
            Some(rule) => Err(NewspaperError::InvalidYear(rule)),
            None => Ok(()),
        },
{
    if start_year > current_year {
        Err(NewspaperError::InvalidYear(YearRule::StartInFuture))
    } else {
        match end_year {
            Some(end) => {
                if start_year > end {
                    Err(NewspaperError::InvalidYear(YearRule::StartAfterEnd))
                } else {
                    Ok(())
                }
            },
            None => Ok(()),
        }
    }
}

/// Whether `year` lies in the window from `start_year` to `end_year` (open when absent).
pub fn runs_in_year(start_year: Year, end_year: Option<Year>, year: i32) -> (r: bool)
    ensures
        r == runs_in(start_year as int, opt_year(end_year), year as int),
{
    match end_year {
        Some(end) => start_year as i32 <= year && year <= end as i32,
        None => start_year as i32 <= year,
    }
}

/// What a newspaper holds, as mathematical values.
pub struct NewspaperModel {
    pub signature: Seq<char>,
    pub name: Seq<char>,
    pub start_year: int,
    pub end_year: Option<int>,
    pub schedule: Seq<bool>,
}

/// A newspaper record as it arrives, before its years are checked.
pub struct UncheckedNewspaper {
    pub signature: Signature,
    pub name: String,
    pub start_year: Year,
    pub end_year: Option<Year>,
    pub weekly_schedule: WeeklyFrequency,
}

impl View for UncheckedNewspaper {
    type V = NewspaperModel;

    open spec fn view(&self) -> NewspaperModel {
        NewspaperModel {
            signature: self.signature@,
            name: self.name@,
            start_year: self.start_year as int,
            end_year: opt_year(self.end_year),
            schedule: self.weekly_schedule@,
        }
    }
}

/// A newspaper: signature, name, the years it ran and the days it comes out.
#[derive(Debug)]
pub struct Newspaper {
    signature: Signature,
    name: String,
    start_year: Year,
    end_year: Option<Year>,
    weekly_schedule: WeeklyFrequency,
}

impl View for Newspaper {
    type V = NewspaperModel;

    closed spec fn view(&self) -> NewspaperModel {
        NewspaperModel {
            signature: self.signature@,
            name: self.name@,
            start_year: self.start_year as int,
            end_year: opt_year(self.end_year),
            schedule: self.weekly_schedule@,
        }
    }
}

/// Whether a newspaper comes out on `day_index` of a week of `year`.
pub open spec fn is_published_on(n: NewspaperModel, day_index: int, year: int) -> bool {
    runs_in(n.start_year, n.end_year, year) && n.schedule[day_index]
}

impl Newspaper {
    /// Assembles a newspaper without checking its years.
    pub fn new_unchecked(
        signature: Signature,
        name: String,
        start_year: Year,
        end_year: Option<Year>,
        weekly_schedule: WeeklyFrequency,
    ) -> (r: Newspaper)
        ensures
            r@ == (NewspaperModel {
                signature: signature@,
                name: name@,
                start_year: start_year as int,
                end_year: opt_year(end_year),
                schedule: weekly_schedule@,
            }),
    {
        Newspaper { signature, name, start_year, end_year, weekly_schedule }
    }

    /// The signature, which is also the newspaper's storage key.
    pub fn identificator(&self) -> (r: &str)
        ensures
            r@ == self@.signature,
    {
        self.signature.as_str()
    }

    pub fn signature(&self) -> (r: &Signature)
        ensures
            r@ == self@.signature,
    {
        &self.signature
    }

    pub fn name(&self) -> (r: &str)
        ensures
            r@ == self@.name,
    {
        self.name.as_str()
    }

    pub fn start_year(&self) -> (r: Year)
        ensures
            r as int == self@.start_year,
    {
        self.start_year
    }

    pub fn end_year(&self) -> (r: Option<Year>)
        ensures
            opt_year(r) == self@.end_year,
    {
        self.end_year
    }

    pub fn weekly_schedule(&self) -> (r: WeeklyFrequency)
        ensures
            r@ == self@.schedule,
    {
        self.weekly_schedule
    }

    /// Checks the rules on years against `current_year`.
    pub fn invariant_held(&self, current_year: Year) -> (r: Result<(), NewspaperError>)
        ensures
            r == match year_problem(self@.start_year, self@.end_year, current_year as int) {
                Some(rule) => Err(NewspaperError::InvalidYear(rule)),
                None => Ok(()),
            },
    {
        check_years(self.start_year, self.end_year, current_year)
    }

    /// Closes the newspaper's window with `end_year`, checked against the year of `now`.
    pub fn add_end_year(self, end_year: Year, now: Clock) -> (r: Result<Newspaper, NewspaperError>)
        ensures
            self@.end_year is Some ==> r == Err::<Newspaper, NewspaperError>(
                NewspaperError::EndYearExists,
            ),
            self@.end_year is None ==> match year_problem(
                self@.start_year,
                Some(end_year as int),
                now.spec_year(),
            ) {
                Some(rule) => r == Err::<Newspaper, NewspaperError>(
                    NewspaperError::InvalidYear(rule),
                ),
                None => r matches Ok(n) && n@ == (NewspaperModel {
                    end_year: Some(end_year as int),
                    ..self@
                }),
            },
    {
        let current_year = now.year();
        match self.end_year {
            Some(_) => Err(NewspaperError::EndYearExists),
            None => {
                let obj = Newspaper::new_unchecked(
                    self.signature,
                    self.name,
                    self.start_year,
                    Some(end_year),
                    self.weekly_schedule,
                );
                match obj.invariant_held(current_year) {
                    Ok(()) => Ok(obj),
                    Err(e) => Err(e),
                }
            },
        }
    }

    /// Whether the newspaper comes out on day `day_index` of a week of `year`.
    pub fn published_on(&self, day_index: usize, year: Year) -> (r: bool)
        requires
            day_index < 7,
        ensures
            r == is_published_on(self@, day_index as int, year as int),
    {
        runs_in_year(self.start_year, self.end_year, year as i32) && self.weekly_schedule.published_on(
            day_index,
        )
    }
}

impl UncheckedNewspaper {
    /// Checks the rules on years against `current_year`, without building a newspaper.
    pub fn check(&self, current_year: Year) -> (r: Result<(), NewspaperError>)
        ensures
            r == match year_problem(self@.start_year, self@.end_year, current_year as int) {
                Some(rule) => Err(NewspaperError::InvalidYear(rule)),
                None => Ok(()),
            },
    {
        check_years(self.start_year, self.end_year, current_year)
    }

    /// Whether the record comes out on day `day_index` of a week of `year`.
    pub fn published_on(&self, day_index: usize, year: i32) -> (r: bool)
        requires
            day_index < 7,
        ensures
            r == is_published_on(self@, day_index as int, year as int),
    {
        runs_in_year(self.start_year, self.end_year, year) && self.weekly_schedule.published_on(
            day_index,
        )
    }

    /// Turns the record into a newspaper if its years hold against `current_year`.
    pub fn into_checked(self, current_year: Year) -> (r: Result<Newspaper, NewspaperError>)
        ensures
            match year_problem(self@.start_year, self@.end_year, current_year as int) {
                Some(rule) => r == Err::<Newspaper, NewspaperError>(
                    NewspaperError::InvalidYear(rule),
                ),
                None => r matches Ok(n) && n@ == self@,
            },
    {
        match self.check(current_year) {
            Ok(()) => Ok(
                Newspaper::new_unchecked(
                    self.signature,
                    self.name,
                    self.start_year,
                    self.end_year,
                    self.weekly_schedule,
                ),
            ),
            Err(e) => Err(e),
        }
    }
}

/// Checks `unchecked` against the year of the clock reading `now`.
pub fn try_from_unchecked(unchecked: UncheckedNewspaper, now: Clock) -> (r: Result<
    Newspaper,
    NewspaperError,
>)
    ensures
        match year_problem(unchecked@.start_year, unchecked@.end_year, now.spec_year()) {
            Some(rule) => r == Err::<Newspaper, NewspaperError>(NewspaperError::InvalidYear(rule)),
            None => r matches Ok(n) && n@ == unchecked@,
        },
{
    unchecked.into_checked(now.year())
}

/// A newspaper as a by-date query lists it: signature and name.
#[derive(Debug)]
pub struct QueryNewspaperDTO {
    signature: String,
    name: String,
}

impl View for QueryNewspaperDTO {
    type V = (Seq<char>, Seq<char>);

    closed spec fn view(&self) -> (Seq<char>, Seq<char>) {
        (self.signature@, self.name@)
    }
}

impl QueryNewspaperDTO {
    pub fn new(signature: String, name: String) -> (r: QueryNewspaperDTO)
        ensures
            r@ == (signature@, name@),
    {
        QueryNewspaperDTO { signature, name }
    }

    pub fn new_test(signature: &str, name: &str) -> (r: QueryNewspaperDTO)
        ensures
            r@ == (signature@, name@),
    {
        QueryNewspaperDTO::new(String::from_str(signature), String::from_str(name))
    }

    pub fn signature(&self) -> (r: &str)
        ensures
            r@ == self@.0,
    {
        self.signature.as_str()
    }

    pub fn name(&self) -> (r: &str)
        ensures
            r@ == self@.1,
    {
        self.name.as_str()
    }
}

impl Newspaper {
    /// The newspaper as a query lists it.
    pub fn to_query_dto(&self) -> (r: QueryNewspaperDTO)
        ensures
            r@ == (self@.signature, self@.name),
    {
        QueryNewspaperDTO::new(String::from_str(self.signature.as_str()), self.name.clone())
    }
}

/// Whether a record belongs in the answer to a by-date query: its years hold against
/// `current` and it comes out on that weekday of that year.
pub open spec fn listed_on(n: NewspaperModel, day_index: int, year: int, current: int) -> bool {
    year_problem(n.start_year, n.end_year, current) is None && is_published_on(n, day_index, year)
}

/// Signature and name of each record that `listed_on` admits, in the records' order.
pub open spec fn published_list(
    s: Seq<NewspaperModel>,
    day_index: int,
    year: int,
    current: int,
) -> Seq<(Seq<char>, Seq<char>)>
    decreases s.len(),
{
    if s.len() == 0 {
        Seq::empty()
    } else {
        let rest = published_list(s.drop_last(), day_index, year, current);
        let n = s.last();
        if listed_on(n, day_index, year, current) {
            rest.push((n.signature, n.name))
        } else {
            rest
        }
    }
}

pub open spec fn models(records: Seq<UncheckedNewspaper>) -> Seq<NewspaperModel> {
    records.map_values(|n: UncheckedNewspaper| n@)
}

pub open spec fn dto_views(dtos: Seq<QueryNewspaperDTO>) -> Seq<(Seq<char>, Seq<char>)> {
    dtos.map_values(|d: QueryNewspaperDTO| d@)
}

/// The newspapers among `records` that come out on `date`; a record whose years do not hold
/// against `current_year` is left out.
pub fn published_newspapers(
    records: &Vec<UncheckedNewspaper>,
    date: &Date,
    current_year: Year,
) -> (r: Vec<QueryNewspaperDTO>)
    ensures
        dto_views(r@) == published_list(
            models(records@),
            weekday_of(date@.0, date@.1, date@.2),
            date@.0,
            current_year as int,
        ),
{
    let day = date.weekday_index();
    let year = date.year();
    let ghost ms = models(records@);
    let mut out: Vec<QueryNewspaperDTO> = Vec::new();
    let mut i: usize = 0;
    while i < records.len()
        invariant
            0 <= i <= records.len(),
            ms == models(records@),
            day < 7,
            day as int == weekday_of(date@.0, date@.1, date@.2),
            year as int == date@.0,
            dto_views(out@) == published_list(ms.take(i as int), day as int, year as int, current_year as int),
        decreases records.len() - i,
    {
        let n = &records[i];
        proof {
            assert(ms.take(i as int + 1).drop_last() =~= ms.take(i as int));
            assert(ms.take(i as int + 1).last() == n@);
        }
        if n.check(current_year).is_ok() && n.published_on(day, year) {
            let dto = QueryNewspaperDTO::new(String::from_str(n.signature.as_str()), n.name.clone());
            let ghost before = out@;
            let ghost dv = dto@;
            out.push(dto);
            proof {
                assert(dto_views(out@) =~= dto_views(before).push(dv));
            }
        }
        i = i + 1;
    }
    proof {
        assert(ms.take(records.len() as int) =~= ms);
    }
    out
}

/// Closing a newspaper's window with `end_year`: the closed newspaper comes out on a day of
/// a year exactly when the year lies from its first year up to `end_year` and its schedule
/// marks the day.
pub proof fn lemma_end_year_bounds_publication(
    before: NewspaperModel,
    end_year: int,
    after: NewspaperModel,
    day_index: int,
    year: int,
)
    requires
        before.end_year is None,
        after == (NewspaperModel { end_year: Some(end_year), ..before }),
    ensures
        is_published_on(after, day_index, year) == (before.start_year <= year <= end_year
            && before.schedule[day_index]),
{
}

} // verus!
