//! The values of a stock reservation: its status and the day it lasts
//! until.

use crate::common::bindings::{calendar_date_of_text, parse_calendar_date, today_local};
use crate::common::text::{is_blank, is_blank_str, text_eq, trim, trim_str};
use crate::common::value_object::{
    keep_trimmed, keep_trimmed_str, lemma_keep_trimmed_keeps, ValueObjectData, ValueObjectError,
};
use crate::common::value_object::spec_parse_required;
use vstd::prelude::*;

verus! {

/// A calendar date as (year, month, day).
pub type CalendarDate = (i32, u32, u32);

/// `a` is a later day than `b`.
pub open spec fn is_later_day(a: CalendarDate, b: CalendarDate) -> bool {
    ||| a.0 > b.0
    ||| (a.0 == b.0 && a.1 > b.1)
    ||| (a.0 == b.0 && a.1 == b.1 && a.2 > b.2)
}

/// Decides `is_later_day`.
pub fn later_day(a: CalendarDate, b: CalendarDate) -> (r: bool)
    ensures
        r == is_later_day(a, b),
{
    a.0 > b.0 || (a.0 == b.0 && a.1 > b.1) || (a.0 == b.0 && a.1 == b.1 && a.2 > b.2)
}

/// "Later than" is a strict order on days: no day is later than itself,
/// and a day later than a day later than a third is later than the third.
pub proof fn lemma_later_day_strict_order(a: CalendarDate, b: CalendarDate, c: CalendarDate)
    ensures
        !is_later_day(a, a),
        is_later_day(a, b) ==> !is_later_day(b, a),
        is_later_day(a, b) && is_later_day(b, c) ==> is_later_day(a, c),
{
}

/// The day a reservation lasts until, written as `YYYY-MM-DD`.
#[derive(Debug, PartialEq, Clone)]
pub struct ReservedUntil(pub String);

/// The reservation end under its form name.
pub type InventoryReservationsReservedUntil = ReservedUntil;

impl ReservedUntil {
    /// The message for a text that is not a date.
    pub const FORMAT_ERROR: &'static str = "Hibás dátum formátum!";

    /// The message for a day that is not later than today.
    pub const NOT_LATER_ERROR: &'static str = "Foglalás csak a mai napnál későbbi dátumra lehetséges";

    /// The verdict on a text given today's date: the trimmed text must be a
    /// date, and a later day than today.
    pub open spec fn spec_validate_on(text: Seq<char>, today: CalendarDate) -> Result<
        (),
        ValueObjectError,
    > {
        Self::spec_date_verdict(calendar_date_of_text(trim(text)), today)
    }

    /// The verdict on what the date parser read.
    pub open spec fn spec_date_verdict(parsed: Option<CalendarDate>, today: CalendarDate) -> Result<
        (),
        ValueObjectError,
    > {
        match parsed {
            None => Err(ValueObjectError::InvalidInput(Self::FORMAT_ERROR)),
            Some(d) => if is_later_day(d, today) {
                Ok(())
            } else {
                Err(ValueObjectError::InvalidInput(Self::NOT_LATER_ERROR))
            },
        }
    }

    /// Judges what the date parser read against today's date.
    pub fn date_verdict(parsed: Option<CalendarDate>, today: CalendarDate) -> (r: Result<
        (),
        ValueObjectError,
    >)
        ensures
            r == Self::spec_date_verdict(parsed, today),
    {
        match parsed {
            None => Err(ValueObjectError::InvalidInput(Self::FORMAT_ERROR)),
            Some(d) => if later_day(d, today) {
                Ok(())
            } else {
                Err(ValueObjectError::InvalidInput(Self::NOT_LATER_ERROR))
            },
        }
    }

    /// Checks the date against a given today.
    pub fn validate_on(&self, today: CalendarDate) -> (r: Result<(), ValueObjectError>)
        ensures
            r == Self::spec_validate_on(self.0@, today),
    {
        Self::date_verdict(parse_calendar_date(trim_str(self.0.as_str())), today)
    }

    /// A reservation end that is accepted on one day is accepted on every
    /// earlier day too, and one refused as not later than today stays
    /// refused on every later day.
    pub proof fn lemma_accepted_earlier(text: Seq<char>, today: CalendarDate, earlier: CalendarDate)
        requires
            !is_later_day(earlier, today),
        ensures
            Self::spec_validate_on(text, today) is Ok
                ==> Self::spec_validate_on(text, earlier) is Ok,
            Self::spec_validate_on(text, earlier) == Err::<(), ValueObjectError>(
                ValueObjectError::InvalidInput(Self::NOT_LATER_ERROR),
            ) ==> Self::spec_validate_on(text, today) == Err::<(), ValueObjectError>(
                ValueObjectError::InvalidInput(Self::NOT_LATER_ERROR),
            ),
    {
    }

    /// Checks the date against today on the machine's clock.
    pub fn validate(&self) -> (r: Result<(), ValueObjectError>)
        ensures
            exists|today: CalendarDate| r == Self::spec_validate_on(self.0@, today),
    {
        let today = today_local();
        self.validate_on(today)
    }

    /// What parsing form text into a required reservation end gives on a
    /// given today: blank text is refused as missing.
    pub open spec fn spec_parse_required_on(data: Seq<char>, today: CalendarDate) -> Result<
        Seq<char>,
        ValueObjectError,
    > {
        if is_blank(data) {
            Err(ValueObjectError::Required)
        } else {
            match Self::spec_validate_on(data, today) {
                Ok(_) => Ok(data),
                Err(e) => Err(e),
            }
        }
    }

    /// Parses form text into a required reservation end on a given today.
    pub fn parse_required_on(data: &str, today: CalendarDate) -> (r: Result<Self, ValueObjectError>)
        ensures
            match r {
                Ok(v) => Self::spec_parse_required_on(data@, today) == Ok::<
                    Seq<char>,
                    ValueObjectError,
                >(v.0@),
                Err(e) => Self::spec_parse_required_on(data@, today) == Err::<
                    Seq<char>,
                    ValueObjectError,
                >(e),
            },
    {
        if is_blank_str(data) {
            return Err(ValueObjectError::Required);
        }
        let v = ReservedUntil(data.to_owned());
        match v.validate_on(today) {
            Ok(()) => Ok(v),
            Err(e) => Err(e),
        }
    }

    /// Parses form text into a required reservation end, judged against
    /// today on the machine's clock.
    pub fn parse_required(data: &str) -> (r: Result<Self, ValueObjectError>)
        ensures
            exists|today: CalendarDate|
                #![trigger Self::spec_parse_required_on(data@, today)]
                match r {
                    Ok(v) => Self::spec_parse_required_on(data@, today) == Ok::<
                        Seq<char>,
                        ValueObjectError,
                    >(v.0@),
                    Err(e) => Self::spec_parse_required_on(data@, today) == Err::<
                        Seq<char>,
                        ValueObjectError,
                    >(e),
                },
    {
        let today = today_local();
        Self::parse_required_on(data, today)
    }

    /// The date as `chrono` reads it from the trimmed text.
    pub fn date_naive(&self) -> (r: Result<CalendarDate, ValueObjectError>)
        ensures
            match r {
                Ok(d) => calendar_date_of_text(trim(self.0@)) == Some(d),
                Err(e) => calendar_date_of_text(trim(self.0@)) is None && e
                    == ValueObjectError::InvalidInput(Self::FORMAT_ERROR),
            },
    {
        match parse_calendar_date(trim_str(self.0.as_str())) {
            Some(d) => Ok(d),
            None => Err(ValueObjectError::InvalidInput(Self::FORMAT_ERROR)),
        }
    }

    /// The text as given.
    pub fn get_value(&self) -> (r: &String)
        ensures
            r@ == self.0@,
    {
        &self.0
    }

    /// The text as it is displayed.
    pub fn to_string(&self) -> (r: String)
        ensures
            r@ == self.0@,
    {
        self.0.clone()
    }
}

/// Where a reservation stands: active, fulfilled, cancelled or expired.
#[derive(Debug, PartialEq, Clone)]
pub struct Status(pub String);

/// The reservation status under its form name.
pub type InventoryReservationsStatus = Status;

impl Status {
    /// The message for an unknown status.
    pub const VALIDATION_ERROR: &'static str = "Hibás foglalás státusz";

    /// The statuses there are.
    pub open spec fn is_known(text: Seq<char>) -> bool {
        text == "active"@ || text == "fulfilled"@ || text == "cancelled"@ || text == "expired"@
    }

    /// The status as it is displayed.
    pub fn to_string(&self) -> (r: String)
        ensures
            r@ == self.0@,
    {
        self.0.clone()
    }
}

impl ValueObjectData for Status {
    open spec fn spec_text(&self) -> Seq<char> {
        self.0@
    }

    open spec fn spec_new(data: Seq<char>) -> Option<Seq<char>> {
        keep_trimmed(data)
    }

    proof fn lemma_new_keeps(data: Seq<char>) {
        lemma_keep_trimmed_keeps(data);
    }

    open spec fn spec_validate(text: Seq<char>) -> Result<(), ValueObjectError> {
        if Self::is_known(text) {
            Ok(())
        } else {
            Err(ValueObjectError::InvalidInput(Self::VALIDATION_ERROR))
        }
    }

    fn new(data: &str) -> (r: Option<Self>) {
        match keep_trimmed_str(data) {
            Some(s) => Some(Status(s)),
            None => None,
        }
    }

    fn validate(&self) -> (r: Result<(), ValueObjectError>) {
        let t = self.0.as_str();
        if text_eq(t, "active") || text_eq(t, "fulfilled") || text_eq(t, "cancelled") || text_eq(
            t,
            "expired",
        ) {
            Ok(())
        } else {
            Err(ValueObjectError::InvalidInput(Self::VALIDATION_ERROR))
        }
    }

    fn get_value(&self) -> (r: &String) {
        &self.0
    }
}

impl Status {
    /// A reservation status is accepted exactly when, trimmed, it is `active`, `fulfilled`,
    /// `cancelled` or `expired`; the trimmed text is kept.
    pub proof fn lemma_parse(text: Seq<char>)
        ensures
            spec_parse_required::<Status>(text) is Ok
                <==> trim(text).len() > 0 && (
                    trim(text) == "active"@ || trim(text) == "fulfilled"@ || trim(text) == "cancelled"@ || trim(text) == "expired"@),
            spec_parse_required::<Status>(text) matches Ok(v) ==> v == trim(text),
            trim(text).len() == 0
                ==> spec_parse_required::<Status>(text) == Err::<Seq<char>, _>(
                    ValueObjectError::Required,
                ),
            spec_parse_required::<Status>(text) matches Err(ValueObjectError::InvalidInput(m))
                ==> m == Self::VALIDATION_ERROR,
    {
    }
}

} // verus!
