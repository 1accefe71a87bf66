//! Calendar dates and their ISO 8601 text.
//!
//! Dates are plain year, month and day numbers of the proleptic Gregorian
//! calendar. `chrono` prints them, reads them from text and tells which day
//! a moment falls on.

use crate::text::{lemma_sorts_behind_prefix, lemma_sorts_with_tails, sorts_before};
use vstd::prelude::*;

verus! {

/// The first year a date may lie in.
pub const MIN_YEAR: i32 = -262_143;

/// The last year a date may lie in.
pub const MAX_YEAR: i32 = 262_142;

/// Whether a year has a 29th of February.
pub open spec fn is_leap_year(year: int) -> bool {
    year % 4 == 0 && (year % 100 != 0 || year % 400 == 0)
}

/// How many days a month of a year has.
pub open spec fn days_in_month(year: int, month: int) -> int {
    if month == 2 {
        if is_leap_year(year) {
            29
        } else {
            28
        }
    } else if month == 4 || month == 6 || month == 9 || month == 11 {
        30
    } else {
        31
    }
}

/// Whether the three numbers name a day that exists, in a year that a date
/// can hold.
pub open spec fn is_calendar_date(year: int, month: int, day: int) -> bool {
    &&& MIN_YEAR <= year <= MAX_YEAR
    &&& 1 <= month <= 12
    &&& 1 <= day <= days_in_month(year, month)
}

/// The character of a decimal digit.
pub open spec fn digit(d: int) -> char {
    if d == 0 {
        '0'
    } else if d == 1 {
        '1'
    } else if d == 2 {
        '2'
    } else if d == 3 {
        '3'
    } else if d == 4 {
        '4'
    } else if d == 5 {
        '5'
    } else if d == 6 {
        '6'
    } else if d == 7 {
        '7'
    } else if d == 8 {
        '8'
    } else {
        '9'
    }
}

/// The decimal digits of `n`, without leading zeros.
pub open spec fn decimal(n: nat) -> Seq<char>
    decreases n,
{
    if n < 10 {
        seq![digit(n as int)]
    } else {
        decimal(n / 10).push(digit((n % 10) as int))
    }
}

/// The decimal digits of `n`, with zeros in front up to `width` characters.
pub open spec fn zero_padded(n: nat, width: nat) -> Seq<char> {
    let digits = decimal(n);
    if digits.len() >= width {
        digits
    } else {
        Seq::new((width - digits.len()) as nat, |i: int| '0') + digits
    }
}

/// The year as ISO 8601 writes it: four digits, and a sign in front of a
/// year that four digits cannot hold.
pub open spec fn iso_year_text(year: int) -> Seq<char> {
    if 0 <= year <= 9999 {
        zero_padded(year as nat, 4)
    } else if year < 0 {
        seq!['-'] + zero_padded((-year) as nat, 4)
    } else {
        seq!['+'] + zero_padded(year as nat, 4)
    }
}

/// The date as `year-month-day`, month and day with two digits each.
pub open spec fn iso_date_text(year: int, month: int, day: int) -> Seq<char> {
    iso_year_text(year) + seq!['-'] + zero_padded(month as nat, 2) + seq!['-'] + zero_padded(
        day as nat,
        2,
    )
}

/// A day of the proleptic Gregorian calendar.
#[derive(Clone, Copy, Debug, PartialEq, Eq, Structural)]
pub struct CalendarDate {
    year: i32,
    month: u32,
    day: u32,
}

impl CalendarDate {
    /// Every date names a day that exists.
    #[verifier::type_invariant]
    pub open spec fn well_formed(self) -> bool {
        is_calendar_date(self.spec_year(), self.spec_month(), self.spec_day())
    }

    /// The year of the date.
    pub closed spec fn spec_year(self) -> int {
        self.year as int
    }

    /// The month of the date, from 1 to 12.
    pub closed spec fn spec_month(self) -> int {
        self.month as int
    }

    /// The day of the month, from 1 on.
    pub closed spec fn spec_day(self) -> int {
        self.day as int
    }

    /// Whether the date comes before another.
    pub open spec fn comes_before(self, other: CalendarDate) -> bool {
        ||| self.spec_year() < other.spec_year()
        ||| self.spec_year() == other.spec_year() && self.spec_month() < other.spec_month()
        ||| self.spec_year() == other.spec_year() && self.spec_month() == other.spec_month()
            && self.spec_day() < other.spec_day()
    }

    /// The text of the date, as in `2015-09-05`.
    pub open spec fn iso_text(self) -> Seq<char> {
        iso_date_text(self.spec_year(), self.spec_month(), self.spec_day())
    }

    /// The date of the given year, month and day, where that day exists.
    pub fn new(year: i32, month: u32, day: u32) -> (date: Option<CalendarDate>)
        ensures
            date is Some <==> is_calendar_date(year as int, month as int, day as int),
            date matches Some(d) ==> d.spec_year() == year && d.spec_month() == month
                && d.spec_day() == day && d.well_formed(),
    {
        if year < MIN_YEAR || year > MAX_YEAR || month < 1 || month > 12 || day < 1 {
            return None;
        }
        // A multiple of 400 that lifts every year above zero.
        let lifted: u32 = (year + 262_400) as u32;
        let leap = lifted % 4 == 0 && (lifted % 100 != 0 || lifted % 400 == 0);
        assert(leap == is_leap_year(year as int)) by {
            assert(lifted == year + 262_400);
            assert((year + 262_400) % 4 == year % 4);
            assert((year + 262_400) % 100 == year % 100);
            assert((year + 262_400) % 400 == year % 400);
        }
        let last: u32 = if month == 2 {
            if leap {
                29
            } else {
                28
            }
        } else if month == 4 || month == 6 || month == 9 || month == 11 {
            30
        } else {
            31
        };
        if day > last {
            return None;
        }
        Some(CalendarDate { year, month, day })
    }

    /// The year of the date.
    pub fn year(&self) -> (year: i32)
        ensures
            year == self.spec_year(),
    {
        self.year
    }

    /// The month of the date, from 1 to 12.
    pub fn month(&self) -> (month: u32)
        ensures
            month == self.spec_month(),
    {
        self.month
    }

    /// The day of the month, from 1 on.
    pub fn day(&self) -> (day: u32)
        ensures
            day == self.spec_day(),
    {
        self.day
    }

    /// Writes the date as ISO 8601 does, as in `2015-09-05`.
    pub fn to_iso_string(&self) -> (text: String)
        ensures
            text@ == self.iso_text(),
    {
        proof {
            use_type_invariant(self);
        }
        format_date(self.year, self.month, self.day)
    }

    /// Reads a date from text of the form `year-month-day`.
    ///
    /// Which texts are dates is for `chrono` to say; a text is accepted
    /// where `chrono` reads a day from it and that day exists.
    pub fn parse(text: &str) -> (date: Option<CalendarDate>)
        ensures
            date == date_of_numbers(date_from_text(text@)),
            date matches Some(d) ==> d.well_formed(),
    {
        match read_date(text) {
            Some((year, month, day)) => CalendarDate::new(year, month, day),
            None => None,
        }
    }

    /// The day, in UTC, on which the moment `seconds` after the start of
    /// 1970 falls.
    pub fn from_timestamp(seconds: i64) -> (date: Option<CalendarDate>)
        ensures
            date == date_of_numbers(utc_date_at(seconds as int)),
            date matches Some(d) ==> d.well_formed(),
    {
        match date_at(seconds) {
            Some((year, month, day)) => CalendarDate::new(year, month, day),
            None => None,
        }
    }

    /// The day, in UTC, that a reading of the clock falls on.
    ///
    /// A reading is the number of whole seconds since the start of 1970, or
    /// `None` where the clock stands before that. There is a date where
    /// there is a reading, its seconds are no more than a timestamp can
    /// hold, and the moment has a day.
    pub fn from_clock(reading: Option<u64>) -> (date: Option<CalendarDate>)
        ensures
            date == date_of_clock(reading),
            date matches Some(d) ==> d.well_formed(),
    {
        match reading {
            Some(seconds) => if seconds <= i64::MAX as u64 {
                CalendarDate::from_timestamp(seconds as i64)
            } else {
                None
            },
            None => None,
        }
    }

    /// Today's date in UTC, where the clock gives a moment that has one.
    ///
    /// What the clock reads is the clock's to say; whatever it reads, the
    /// date is the one that [`CalendarDate::from_clock`] gives for the
    /// reading, and is a day that exists.
    pub fn today() -> (date: Option<CalendarDate>)
        ensures
            exists|reading: Option<u64>| date == #[trigger] date_of_clock(reading),
            date matches Some(d) ==> d.well_formed(),
    {
        let reading = unix_now();
        let date = CalendarDate::from_clock(reading);
        assert(date == date_of_clock(reading));
        date
    }
}

/// The day, in UTC, that a reading of the clock falls on: the day of the
/// moment that many seconds after the start of 1970, where the clock gave a
/// reading and a timestamp can hold it.
pub open spec fn date_of_clock(reading: Option<u64>) -> Option<CalendarDate> {
    match reading {
        Some(seconds) => if seconds <= i64::MAX {
            date_of_numbers(utc_date_at(seconds as int))
        } else {
            None
        },
        None => None,
    }
}

/// The date that three numbers name, if they are given and name a day that
/// exists.
pub open spec fn date_of_numbers(numbers: Option<(int, int, int)>) -> Option<CalendarDate> {
    match numbers {
        Some((year, month, day)) => if is_calendar_date(year, month, day) {
            Some(date_with(year, month, day))
        } else {
            None
        },
        None => None,
    }
}

/// The date with the given year, month and day.
pub closed spec fn date_with(year: int, month: int, day: int) -> CalendarDate {
    CalendarDate { year: year as i32, month: month as u32, day: day as u32 }
}

/// A date is its three numbers and nothing more.
pub proof fn lemma_date_with(year: int, month: int, day: int)
    requires
        is_calendar_date(year, month, day),
    ensures
        date_with(year, month, day).spec_year() == year,
        date_with(year, month, day).spec_month() == month,
        date_with(year, month, day).spec_day() == day,
        date_with(year, month, day).well_formed(),
{
}

/// Two dates with the same three numbers are the same date.
pub proof fn lemma_date_by_numbers(a: CalendarDate, b: CalendarDate)
    requires
        a.spec_year() == b.spec_year(),
        a.spec_month() == b.spec_month(),
        a.spec_day() == b.spec_day(),
    ensures
        a == b,
{
}

/// The numbers of the day that `chrono` reads from `text`, or nothing where
/// it reads none.
pub uninterp spec fn date_from_text(text: Seq<char>) -> Option<(int, int, int)>;

/// The numbers of the UTC day on which `chrono` puts the moment `seconds`
/// after the start of 1970, or nothing where the moment is out of its range.
pub uninterp spec fn utc_date_at(seconds: int) -> Option<(int, int, int)>;

/// `chrono::NaiveDate::from_ymd_opt`, then `format` with `%Y-%m-%d`.
///
/// Trusted: for a day that exists, `chrono` builds the date and prints the
/// year with four digits (behind a sign where it lies outside 0..=9999),
/// then month and day with two digits each, with `-` between them.
#[verifier::external_body]
fn format_date(year: i32, month: u32, day: u32) -> (text: String)
    requires
        is_calendar_date(year as int, month as int, day as int),
    ensures
        text@ == iso_date_text(year as int, month as int, day as int),
{
    chrono::NaiveDate::from_ymd_opt(year, month, day).unwrap().format("%Y-%m-%d").to_string()
}

/// `str::parse` at the type `chrono::NaiveDate`, the date given by its
/// year, month and day.
///
/// Trusted: whether a date is read, and which, is determined by the text.
#[verifier::external_body]
fn read_date(text: &str) -> (numbers: Option<(i32, u32, u32)>)
    ensures
        numbers is Some <==> date_from_text(text@) is Some,
        numbers matches Some(n) ==> date_from_text(text@) == Some(
            (n.0 as int, n.1 as int, n.2 as int),
        ),
{
    match text.parse::<chrono::NaiveDate>() {
        Ok(date) => Some(
            (
                chrono::Datelike::year(&date),
                chrono::Datelike::month(&date),
                chrono::Datelike::day(&date),
            ),
        ),
        Err(_) => None,
    }
}

/// `chrono::DateTime::from_timestamp` with no nanoseconds, then
/// `date_naive`, the date given by its year, month and day.
///
/// Trusted: whether the moment has a date, and which, is determined by the
/// number of seconds.
#[verifier::external_body]
fn date_at(seconds: i64) -> (numbers: Option<(i32, u32, u32)>)
    ensures
        numbers is Some <==> utc_date_at(seconds as int) is Some,
        numbers matches Some(n) ==> utc_date_at(seconds as int) == Some(
            (n.0 as int, n.1 as int, n.2 as int),
        ),
{
    match chrono::DateTime::from_timestamp(seconds, 0) {
        Some(moment) => {
            let date = moment.date_naive();
            Some(
                (
                    chrono::Datelike::year(&date),
                    chrono::Datelike::month(&date),
                    chrono::Datelike::day(&date),
                ),
            )
        },
        None => None,
    }
}

/// `std::time::SystemTime::now` as whole seconds since
/// `std::time::UNIX_EPOCH`, or nothing where the clock stands before it.
///
/// Trusted: nothing is claimed of the answer, which is the clock's to give.
#[verifier::external_body]
fn unix_now() -> Option<u64> {
    match std::time::SystemTime::now().duration_since(std::time::UNIX_EPOCH) {
        Ok(elapsed) => Some(elapsed.as_secs()),
        Err(_) => None,
    }
}

/// The number that a decimal digit stands for.
pub open spec fn digit_value(c: char) -> int {
    if c == '1' {
        1
    } else if c == '2' {
        2
    } else if c == '3' {
        3
    } else if c == '4' {
        4
    } else if c == '5' {
        5
    } else if c == '6' {
        6
    } else if c == '7' {
        7
    } else if c == '8' {
        8
    } else if c == '9' {
        9
    } else {
        0
    }
}

/// The number that a text of decimal digits stands for.
pub open spec fn number_of(digits: Seq<char>) -> int
    decreases digits.len(),
{
    if digits.len() == 0 {
        0
    } else {
        number_of(digits.drop_last()) * 10 + digit_value(digits.last())
    }
}

/// The year that a text stands for: a number, with or without a sign.
pub open spec fn year_of_text(text: Seq<char>) -> int {
    if text.len() > 0 && text[0] == '-' {
        -number_of(text.subrange(1, text.len() as int))
    } else if text.len() > 0 && text[0] == '+' {
        number_of(text.subrange(1, text.len() as int))
    } else {
        number_of(text)
    }
}

/// The year, month and day that the text of a date stands for: the day is
/// in its last two characters, the month in the two before the `-` in
/// front of them, and the year in all that stands before the `-` in front
/// of the month.
pub open spec fn numbers_of_iso_text(text: Seq<char>) -> (int, int, int) {
    let n = text.len() as int;
    (
        year_of_text(text.subrange(0, n - 6)),
        number_of(text.subrange(n - 5, n - 3)),
        number_of(text.subrange(n - 2, n)),
    )
}

/// The digits of a number stand for that number.
pub proof fn lemma_number_of_decimal(n: nat)
    ensures
        number_of(decimal(n)) == n,
    decreases n,
{
    if n < 10 {
        let text = seq![digit(n as int)];
        assert(text.drop_last() =~= Seq::<char>::empty());
        assert(number_of(text.drop_last()) == 0);
        assert(text.last() == digit(n as int));
    } else {
        lemma_number_of_decimal(n / 10);
        let text = decimal(n / 10).push(digit((n % 10) as int));
        assert(text.drop_last() =~= decimal(n / 10));
        assert(text.last() == digit((n % 10) as int));
    }
}

/// Zeros in front of a text of digits do not change the number it stands
/// for.
pub proof fn lemma_number_of_padded(zeros: nat, digits: Seq<char>)
    ensures
        number_of(Seq::new(zeros, |i: int| '0') + digits) == number_of(digits),
    decreases digits.len(), zeros,
{
    let padding = Seq::new(zeros, |i: int| '0');
    let text = padding + digits;
    if digits.len() > 0 {
        lemma_number_of_padded(zeros, digits.drop_last());
        assert(text.drop_last() =~= padding + digits.drop_last());
        assert(text.last() == digits.last());
    } else if zeros > 0 {
        let shorter = Seq::new((zeros - 1) as nat, |i: int| '0');
        lemma_number_of_padded((zeros - 1) as nat, digits);
        assert(text.drop_last() =~= shorter + digits);
        assert(text.last() == '0');
    } else {
        assert(text =~= digits);
    }
}

/// A number written with zeros in front stands for that number.
pub proof fn lemma_number_of_zero_padded(n: nat, width: nat)
    ensures
        number_of(zero_padded(n, width)) == n,
{
    lemma_number_of_decimal(n);
    if decimal(n).len() < width {
        lemma_number_of_padded((width - decimal(n).len()) as nat, decimal(n));
    }
}

/// A number is written with at least one character, and the first is no
/// sign.
pub proof fn lemma_decimal_starts_with_digit(n: nat)
    ensures
        decimal(n).len() >= 1,
        decimal(n)[0] != '-',
        decimal(n)[0] != '+',
    decreases n,
{
    if n >= 10 {
        lemma_decimal_starts_with_digit(n / 10);
    }
}

/// A number below a hundred is written with two characters where it is
/// padded to two.
pub proof fn lemma_two_digits(n: nat)
    requires
        n < 100,
    ensures
        zero_padded(n, 2).len() == 2,
{
    if n >= 10 {
        assert(decimal(n / 10).len() == 1);
    }
}

/// The year can be read back from its text.
pub proof fn lemma_year_reads_back(year: int)
    ensures
        year_of_text(iso_year_text(year)) == year,
        iso_year_text(year).len() >= 1,
{
    let size: nat = if year < 0 {
        (-year) as nat
    } else {
        year as nat
    };
    let padded = zero_padded(size, 4);
    lemma_number_of_zero_padded(size, 4);
    lemma_decimal_starts_with_digit(size);
    assert(padded.len() >= 1 && padded[0] != '-' && padded[0] != '+');
    if 0 <= year <= 9999 {
    } else if year < 0 {
        let text = seq!['-'] + padded;
        assert(text.subrange(1, text.len() as int) =~= padded);
    } else {
        let text = seq!['+'] + padded;
        assert(text.subrange(1, text.len() as int) =~= padded);
    }
}

/// The numbers of a date can be read back from its text.
pub proof fn lemma_iso_text_reads_back(year: int, month: int, day: int)
    requires
        is_calendar_date(year, month, day),
    ensures
        numbers_of_iso_text(iso_date_text(year, month, day)) == (year, month, day),
{
    let y = iso_year_text(year);
    let m = zero_padded(month as nat, 2);
    let d = zero_padded(day as nat, 2);
    let text = iso_date_text(year, month, day);
    lemma_two_digits(month as nat);
    lemma_two_digits(day as nat);
    lemma_year_reads_back(year);
    lemma_number_of_zero_padded(month as nat, 2);
    lemma_number_of_zero_padded(day as nat, 2);
    let n = text.len() as int;
    assert(n == y.len() + 6);
    assert(text.subrange(0, n - 6) =~= y);
    assert(text.subrange(n - 5, n - 3) =~= m);
    assert(text.subrange(n - 2, n) =~= d);
}

/// Two dates with the same text are the same date.
pub proof fn lemma_iso_text_is_injective(a: CalendarDate, b: CalendarDate)
    requires
        a.well_formed(),
        b.well_formed(),
        a.iso_text() == b.iso_text(),
    ensures
        a == b,
{
    lemma_iso_text_reads_back(a.spec_year(), a.spec_month(), a.spec_day());
    lemma_iso_text_reads_back(b.spec_year(), b.spec_month(), b.spec_day());
}

/// A number below a hundred, padded to two characters, is its tens and its
/// ones.
pub proof fn lemma_two_digits_are(n: nat)
    requires
        n < 100,
    ensures
        zero_padded(n, 2) =~= seq![digit(n as int / 10), digit(n as int % 10)],
{
    if n >= 10 {
        assert(decimal(n / 10) =~= seq![digit(n as int / 10)]);
    }
}

/// A number below ten thousand, padded to four characters, is its
/// thousands, hundreds, tens and ones.
pub proof fn lemma_four_digits_are(n: nat)
    requires
        n <= 9999,
    ensures
        zero_padded(n, 4) =~= seq![
            digit(n as int / 1000),
            digit(n as int / 100 % 10),
            digit(n as int / 10 % 10),
            digit(n as int % 10),
        ],
{
    reveal_with_fuel(decimal, 4);
}

/// The digits sort as the numbers they stand for.
pub proof fn lemma_digits_sort(a: int, b: int)
    requires
        0 <= a < b <= 9,
    ensures
        digit(a) != digit(b),
        (digit(a) as u32) < (digit(b) as u32),
{
}

/// Two texts of one character sort as the characters do.
pub proof fn lemma_single_sorts(a: char, b: char)
    requires
        (a as u32) < (b as u32),
    ensures
        sorts_before(seq![a], seq![b]),
{
}

/// Two numbers below a hundred sort as their texts of two characters do.
pub proof fn lemma_two_digits_sort(a: nat, b: nat)
    requires
        a < b < 100,
    ensures
        sorts_before(zero_padded(a, 2), zero_padded(b, 2)),
        zero_padded(a, 2).len() == 2,
        zero_padded(b, 2).len() == 2,
{
    lemma_two_digits_are(a);
    lemma_two_digits_are(b);
    let x = seq![digit(a as int / 10), digit(a as int % 10)];
    let y = seq![digit(b as int / 10), digit(b as int % 10)];
    if a / 10 < b / 10 {
        lemma_digits_sort(a as int / 10, b as int / 10);
    } else {
        lemma_digits_sort(a as int % 10, b as int % 10);
        lemma_single_sorts(digit(a as int % 10), digit(b as int % 10));
        assert(x.drop_first() =~= seq![digit(a as int % 10)]);
        assert(y.drop_first() =~= seq![digit(b as int % 10)]);
    }
    assert(sorts_before(x, y));
}

/// A number below ten thousand, padded to four characters, is its hundreds
/// padded to two, then what is left over padded to two.
pub proof fn lemma_four_digits_split(n: nat)
    requires
        n <= 9999,
    ensures
        zero_padded(n, 4) =~= zero_padded(n / 100, 2) + zero_padded(n % 100, 2),
        zero_padded(n, 4).len() == 4,
{
    let m = n as int;
    assert((m / 100) / 10 == m / 1000);
    assert((m % 100) / 10 == m / 10 % 10);
    assert((m % 100) % 10 == m % 10);
    lemma_four_digits_are(n);
    lemma_two_digits_are(n / 100);
    lemma_two_digits_are(n % 100);
}

/// Two numbers below ten thousand sort as their texts of four characters
/// do.
pub proof fn lemma_four_digits_sort(a: nat, b: nat)
    requires
        a < b <= 9999,
    ensures
        sorts_before(zero_padded(a, 4), zero_padded(b, 4)),
        zero_padded(a, 4).len() == 4,
        zero_padded(b, 4).len() == 4,
{
    lemma_four_digits_split(a);
    lemma_four_digits_split(b);
    let high_a = zero_padded(a / 100, 2);
    let high_b = zero_padded(b / 100, 2);
    let low_a = zero_padded(a % 100, 2);
    let low_b = zero_padded(b % 100, 2);
    if a / 100 < b / 100 {
        lemma_two_digits_sort(a / 100, b / 100);
        lemma_sorts_with_tails(high_a, high_b, low_a, low_b);
    } else {
        assert(a / 100 == b / 100);
        lemma_two_digits_sort(a % 100, b % 100);
        lemma_sorts_behind_prefix(high_a, low_a, low_b);
    }
}

/// Between the years 0 and 9999 the texts of two dates sort as the dates
/// do, and have the same length.
pub proof fn lemma_iso_text_sorts(a: CalendarDate, b: CalendarDate)
    requires
        a.well_formed(),
        b.well_formed(),
        0 <= a.spec_year() <= 9999,
        0 <= b.spec_year() <= 9999,
        a.comes_before(b),
    ensures
        sorts_before(a.iso_text(), b.iso_text()),
        a.iso_text().len() == b.iso_text().len(),
{
    let year_a = zero_padded(a.spec_year() as nat, 4);
    let year_b = zero_padded(b.spec_year() as nat, 4);
    let month_a = zero_padded(a.spec_month() as nat, 2);
    let month_b = zero_padded(b.spec_month() as nat, 2);
    let day_a = zero_padded(a.spec_day() as nat, 2);
    let day_b = zero_padded(b.spec_day() as nat, 2);
    let dash = seq!['-'];
    lemma_four_digits_are(a.spec_year() as nat);
    lemma_four_digits_are(b.spec_year() as nat);
    lemma_two_digits(a.spec_month() as nat);
    lemma_two_digits(b.spec_month() as nat);
    lemma_two_digits(a.spec_day() as nat);
    lemma_two_digits(b.spec_day() as nat);
    if a.spec_year() < b.spec_year() {
        lemma_four_digits_sort(a.spec_year() as nat, b.spec_year() as nat);
        lemma_sorts_with_tails(
            year_a,
            year_b,
            dash + month_a + dash + day_a,
            dash + month_b + dash + day_b,
        );
        assert(a.iso_text() =~= year_a + (dash + month_a + dash + day_a));
        assert(b.iso_text() =~= year_b + (dash + month_b + dash + day_b));
    } else if a.spec_month() < b.spec_month() {
        lemma_two_digits_sort(a.spec_month() as nat, b.spec_month() as nat);
        lemma_sorts_with_tails(month_a, month_b, dash + day_a, dash + day_b);
        lemma_sorts_behind_prefix(
            year_a + dash,
            month_a + (dash + day_a),
            month_b + (dash + day_b),
        );
        assert(a.iso_text() =~= (year_a + dash) + (month_a + (dash + day_a)));
        assert(b.iso_text() =~= (year_a + dash) + (month_b + (dash + day_b)));
    } else {
        lemma_two_digits_sort(a.spec_day() as nat, b.spec_day() as nat);
        lemma_sorts_behind_prefix(year_a + dash + month_a + dash, day_a, day_b);
    }
}

} // verus!
