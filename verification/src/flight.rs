//! The flight booker: a one-way flight needs a valid start date; a return
//! flight needs valid start and return dates, the return no earlier than the
//! start. Dates are typed as `YYYY-MM-DD` and read by `chrono`.
use chrono::Datelike;
use chrono::NaiveDate;
use vstd::prelude::*;
use vstd::string::*;
use crate::text::{digit_char, nat_text};

verus! {

/// The earliest year a date can have.
pub const MIN_YEAR: i32 = -262143;

/// The latest year a date can have.
pub const MAX_YEAR: i32 = 262142;

/// A day of the proleptic Gregorian calendar.
#[derive(Clone, Copy, Debug, PartialEq, Eq)]
pub struct Date {
    pub year: i32,
    pub month: u32,
    pub day: u32,
}

/// `y` is a leap year of the Gregorian calendar.
pub open spec fn is_leap_year(y: int) -> bool {
    (y % 4 == 0 && y % 100 != 0) || y % 400 == 0
}

/// The number of days of month `m` of year `y`.
pub open spec fn days_in_month(y: int, m: int) -> int {
    if m == 2 {
        if is_leap_year(y) { 29 } else { 28 }
    } else if m == 4 || m == 6 || m == 9 || m == 11 {
        30
    } else {
        31
    }
}

/// `year`, `month` and `day` name a day that exists, in the range of years
/// that a date can have.
pub open spec fn valid_date(year: int, month: int, day: int) -> bool {
    &&& MIN_YEAR <= year <= MAX_YEAR
    &&& 1 <= month <= 12
    &&& 1 <= day <= days_in_month(year, month)
}

/// `a` is the same day as `b` or an earlier one.
pub open spec fn date_le(a: Date, b: Date) -> bool {
    ||| a.year < b.year
    ||| a.year == b.year && a.month < b.month
    ||| a.year == b.year && a.month == b.month && a.day <= b.day
}

impl Date {
    /// The date names a day that exists.
    pub open spec fn valid(&self) -> bool {
        valid_date(self.year as int, self.month as int, self.day as int)
    }

    /// Whether the date names a day that exists.
    pub fn is_valid(&self) -> (b: bool)
        ensures
            b == self.valid(),
    {
        if self.year < MIN_YEAR || self.year > MAX_YEAR || self.month < 1 || self.month > 12 || self.day < 1 {
            return false;
        }
        let leap = (self.year % 4 == 0 && self.year % 100 != 0) || self.year % 400 == 0;
        assert(leap == is_leap_year(self.year as int));
        let days: u32 = if self.month == 2 {
            if leap { 29 } else { 28 }
        } else if self.month == 4 || self.month == 6 || self.month == 9 || self.month == 11 {
            30
        } else {
            31
        };
        self.day <= days
    }

    /// This date is the same day as `other` or an earlier one.
    pub fn not_after(&self, other: &Date) -> (b: bool)
        ensures
            b == date_le(*self, *other),
    {
        self.year < other.year || (self.year == other.year && self.month < other.month) || (
        self.year == other.year && self.month == other.month && self.day <= other.day)
    }
}

/// The date, as year, month and day, that
/// `chrono::NaiveDate::parse_from_str(text, "%Y-%m-%d")` reads from `text`,
/// or `None` where it returns an error.
pub uninterp spec fn chrono_ymd_date(text: Seq<char>) -> Option<(i32, u32, u32)>;

/// The numeral of `n` with zeros before it up to `width` digits.
pub open spec fn zero_padded(n: nat, width: nat) -> Seq<char> {
    let t = nat_text(n);
    if t.len() < width {
        Seq::new((width - t.len()) as nat, |i: int| '0') + t
    } else {
        t
    }
}

/// A year as `%Y` writes it: four digits at least, zero-padded; a sign
/// before years outside 0 to 9999.
pub open spec fn year_text(y: int) -> Seq<char> {
    if 0 <= y <= 9999 {
        zero_padded(y as nat, 4)
    } else if y < 0 {
        seq!['-'] + zero_padded((-y) as nat, 4)
    } else {
        seq!['+'] + zero_padded(y as nat, 4)
    }
}

/// A month or a day as `%m` and `%d` write it: two digits.
pub open spec fn two_digits(n: int) -> Seq<char> {
    seq![digit_char(n / 10), digit_char(n % 10)]
}

/// A date as the format `%Y-%m-%d` writes it.
pub open spec fn date_text(year: int, month: int, day: int) -> Seq<char> {
    year_text(year) + seq!['-'] + two_digits(month) + seq!['-'] + two_digits(day)
}

/// The date that `text` names, as `chrono` reads it.
pub open spec fn parsed_date(text: Seq<char>) -> Option<Date> {
    match chrono_ymd_date(text) {
        Some((y, m, d)) => Some(Date { year: y, month: m, day: d }),
        None => None,
    }
}

/// Reads a date written as `YYYY-MM-DD`, by
/// `chrono::NaiveDate::parse_from_str` with the format `%Y-%m-%d`. The
/// contract names the result and claims what `NaiveDate` guarantees of every
/// value it holds: that it is a day that exists, in the range of years that
/// `NaiveDate` supports. Which texts are read, and as what, is not stated.
#[verifier::external_body]
fn read_date(text: &str) -> (r: Option<Date>)
    ensures
        match chrono_ymd_date(text@) {
            Some((y, m, d)) => r == Some((Date { year: y, month: m, day: d })),
            None => r is None,
        },
        r matches Some(d) ==> d.valid(),
{
    match NaiveDate::parse_from_str(text, "%Y-%m-%d") {
        Ok(d) => Some(Date { year: d.year(), month: d.month(), day: d.day() }),
        Err(_) => None,
    }
}

/// Writes a date with the format `%Y-%m-%d`, by `NaiveDate::from_ymd_opt`
/// and `NaiveDate::format`. The contract claims what chrono's formatting
/// code writes: the year zero-padded to four digits, with a sign when it
/// lies outside 0 to 9999, then month and day in two digits each, joined by
/// hyphens.
#[verifier::external_body]
fn write_date(date: &Date) -> (s: String)
    requires
        date.valid(),
    ensures
        s@ == date_text(date.year as int, date.month as int, date.day as int),
{
    NaiveDate::from_ymd_opt(date.year, date.month, date.day).unwrap().format("%Y-%m-%d").to_string()
}

/// The two kinds of flight.
#[derive(Clone, Copy, Debug, PartialEq, Eq)]
pub enum FlightKind {
    OneWay,
    Return,
}

/// The position of the one-way flight in the choice of kinds.
pub const ONE_WAY_INDEX: i32 = 0;

/// The kind chosen at position `index` of the choice: the one-way flight at
/// its position, the return flight at any other.
pub fn kind_of_choice(index: i32) -> (k: FlightKind)
    ensures
        k == (if index == ONE_WAY_INDEX { FlightKind::OneWay } else { FlightKind::Return }),
{
    if index == ONE_WAY_INDEX {
        FlightKind::OneWay
    } else {
        FlightKind::Return
    }
}

/// The form of the flight booker.
#[derive(Debug)]
pub struct FlightForm {
    /// The kind of flight chosen.
    pub kind: FlightKind,
    /// The text of the start date.
    pub start_text: String,
    /// The text of the return date.
    pub return_text: String,
}

/// The form on opening: a one-way flight, both dates set to `today`.
pub fn initial_form(today: &Date) -> (form: FlightForm)
    requires
        today.valid(),
    ensures
        form.kind == FlightKind::OneWay,
        form.start_text@ == date_text(today.year as int, today.month as int, today.day as int),
        form.return_text@ == date_text(today.year as int, today.month as int, today.day as int),
{
    FlightForm { kind: FlightKind::OneWay, start_text: write_date(today), return_text: write_date(today) }
}

/// How the form looks after an edit.
#[derive(Clone, Copy, Debug, PartialEq, Eq)]
pub struct FlightUpdate {
    /// The return date can be edited.
    pub return_enabled: bool,
    /// The start date reads as a date (otherwise it is marked).
    pub start_valid: bool,
    /// The return date reads as a date, where it was read: only for a
    /// return flight; `None` leaves its mark as it was.
    pub return_valid: Option<bool>,
    /// The flight can be booked.
    pub book_enabled: bool,
}

/// How the form looks, given the kind and the dates read from its fields.
pub open spec fn flight_update(kind: FlightKind, start: Option<Date>, ret: Option<Date>) -> FlightUpdate {
    match kind {
        FlightKind::OneWay => FlightUpdate {
            return_enabled: false,
            start_valid: start is Some,
            return_valid: None,
            book_enabled: start is Some,
        },
        FlightKind::Return => FlightUpdate {
            return_enabled: true,
            start_valid: start is Some,
            return_valid: Some(ret is Some),
            book_enabled: start is Some && ret is Some && date_le(start->0, ret->0),
        },
    }
}

/// How the form looks, given the kind and the dates read from its fields.
pub fn decide(kind: FlightKind, start: Option<Date>, ret: Option<Date>) -> (u: FlightUpdate)
    ensures
        u == flight_update(kind, start, ret),
        u.book_enabled <==> match kind {
            FlightKind::OneWay => start is Some,
            FlightKind::Return => start is Some && ret is Some && date_le(start->0, ret->0),
        },
        u.return_enabled <==> kind == FlightKind::Return,
        u.start_valid <==> start is Some,
        u.return_valid == (if kind == FlightKind::Return { Some(ret is Some) } else { None::<bool> }),
{
    match kind {
        FlightKind::OneWay => FlightUpdate {
            return_enabled: false,
            start_valid: start.is_some(),
            return_valid: None,
            book_enabled: start.is_some(),
        },
        FlightKind::Return => {
            let book_enabled = match (start, ret) {
                (Some(s), Some(r)) => s.not_after(&r),
                _ => false,
            };
            FlightUpdate {
                return_enabled: true,
                start_valid: start.is_some(),
                return_valid: Some(ret.is_some()),
                book_enabled,
            }
        },
    }
}

/// How the form looks after an edit: the start date is read always, the
/// return date only for a return flight.
pub fn update(form: &FlightForm) -> (u: FlightUpdate)
    ensures
        u == flight_update(
            form.kind,
            parsed_date(form.start_text@),
            if form.kind == FlightKind::Return { parsed_date(form.return_text@) } else { None },
        ),
        u.book_enabled ==> parsed_date(form.start_text@) is Some,
        u.book_enabled && form.kind == FlightKind::Return ==> parsed_date(form.return_text@) is Some
            && date_le(parsed_date(form.start_text@)->0, parsed_date(form.return_text@)->0),
        form.kind == FlightKind::OneWay ==> (u.book_enabled <==> parsed_date(form.start_text@) is Some),
        form.kind == FlightKind::Return && parsed_date(form.start_text@) is Some
            && parsed_date(form.return_text@) is Some
            && date_le(parsed_date(form.start_text@)->0, parsed_date(form.return_text@)->0) ==> u.book_enabled,
{
    let start = read_date(form.start_text.as_str());
    let ret = match form.kind {
        FlightKind::Return => read_date(form.return_text.as_str()),
        FlightKind::OneWay => None,
    };
    decide(form.kind, start, ret)
}

/// The message that confirms a booking.
pub open spec fn booking_text(kind: FlightKind, start: Seq<char>, ret: Seq<char>) -> Seq<char> {
    match kind {
        FlightKind::OneWay => "You have booked a one-way flight for "@ + start + "."@,
        FlightKind::Return => "You have booked a return flight from "@ + start + " to "@ + ret,
    }
}

/// The message that confirms the booking of the flight in the form.
pub fn booking_message(form: &FlightForm) -> (m: String)
    ensures
        m@ == booking_text(form.kind, form.start_text@, form.return_text@),
{
    match form.kind {
        FlightKind::OneWay => {
            let mut m = String::new();
            m.append("You have booked a one-way flight for ");
            m.append(form.start_text.as_str());
            m.append(".");
            m
        },
        FlightKind::Return => {
            let mut m = String::new();
            m.append("You have booked a return flight from ");
            m.append(form.start_text.as_str());
            m.append(" to ");
            m.append(form.return_text.as_str());
            m
        },
    }
}

/// Comparing dates orders them: every date is no later than itself; dates
/// no later than each other are the same; order carries over; any two dates
/// compare one way or the other.
pub proof fn lemma_date_order(a: Date, b: Date, c: Date)
    ensures
        date_le(a, a),
        date_le(a, b) && date_le(b, a) ==> a == b,
        date_le(a, b) && date_le(b, c) ==> date_le(a, c),
        date_le(a, b) || date_le(b, a),
{
}

/// A flight can be booked only with a start date; a return flight also
/// needs a return date no earlier than the start; and these dates suffice.
/// An unreadable start date disables booking whatever the return date.
pub proof fn lemma_booking_needs_dates(kind: FlightKind, start: Option<Date>, ret: Option<Date>)
    ensures
        flight_update(kind, start, ret).book_enabled ==> start is Some,
        kind == FlightKind::Return && flight_update(kind, start, ret).book_enabled ==>
            ret is Some && date_le(start->0, ret->0),
        start is None ==> !flight_update(kind, start, ret).book_enabled,
        kind == FlightKind::OneWay && start is Some ==> flight_update(kind, start, ret).book_enabled,
        kind == FlightKind::Return && start is Some && ret is Some && date_le(start->0, ret->0)
            ==> flight_update(kind, start, ret).book_enabled,
        kind == FlightKind::Return && start is Some && ret is Some && !date_le(start->0, ret->0)
            ==> !flight_update(kind, start, ret).book_enabled,
        flight_update(kind, start, ret).return_enabled <==> kind == FlightKind::Return,
        flight_update(kind, start, ret).start_valid <==> start is Some,
{
}

} // verus!
