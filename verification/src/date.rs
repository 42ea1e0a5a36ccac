//! Calendar dates: validity, the date one month later, and the two textual
//! forms the service writes into loan records.

use chrono::Datelike;
use vstd::prelude::*;

use crate::text::{decimal, digit_char, digits_value, is_digit, law_decimal_value};

verus! {

/// The earliest year a date can have.
pub open spec fn min_year() -> int {
    -262143
}

/// The latest year a date can have.
pub open spec fn max_year() -> int {
    262142
}

/// Leap years of the proleptic Gregorian calendar.
pub open spec fn is_leap_year(y: int) -> bool {
    y % 4 == 0 && (y % 100 != 0 || y % 400 == 0)
}

/// The number of days of month `m` (1 to 12) of year `y`.
pub open spec fn days_in_month(y: int, m: int) -> int {
    if m == 2 {
        if is_leap_year(y) { 29 } else { 28 }
    } else if m == 4 || m == 6 || m == 9 || m == 11 {
        30
    } else {
        31
    }
}

/// A year, month and day that name an existing day in the supported range.
pub open spec fn valid_ymd(y: int, m: int, d: int) -> bool {
    &&& min_year() <= y <= max_year()
    &&& 1 <= m <= 12
    &&& 1 <= d <= days_in_month(y, m)
}

/// A calendar date.
#[derive(Clone, Copy, Debug, PartialEq, Eq, Structural)]
pub struct Date {
    pub year: i32,
    pub month: u32,
    pub day: u32,
}

impl Date {
    /// The date names an existing day.
    pub open spec fn valid(self) -> bool {
        valid_ymd(self.year as int, self.month as int, self.day as int)
    }

    /// Makes a date from its parts; `None` when they name no day.
    pub fn from_ymd(year: i32, month: u32, day: u32) -> (r: Option<Date>)
        ensures
            r is Some <==> valid_ymd(year as int, month as int, day as int),
            r matches Some(d) ==> d.year == year && d.month == month && d.day == day,
    {
        if year < -262143 || year > 262142 || month < 1 || month > 12 || day < 1 {
            return None;
        }
        let leap = year % 4 == 0 && (year % 100 != 0 || year % 400 == 0);
        let last: u32 = if month == 2 {
            if leap { 29 } else { 28 }
        } else if month == 4 || month == 6 || month == 9 || month == 11 {
            30
        } else {
            31
        };
        if day > last {
            None
        } else {
            Some(Date { year, month, day })
        }
    }
}

/// The date `months` months after `d`, keeping the day of the month or, when
/// the target month is shorter, taking its last day; `None` when the result
/// leaves the supported range.
pub open spec fn months_after(d: Date, months: int) -> Option<Date> {
    let total = d.year * 12 + (d.month - 1) + months;
    if months > i32::MAX || total > i32::MAX {
        None
    } else {
        let y = total / 12;
        let m = total % 12 + 1;
        let day = if d.day <= days_in_month(y, m) { d.day as int } else { days_in_month(y, m) };
        if valid_ymd(y, m, day) {
            Some(Date { year: y as i32, month: m as u32, day: day as u32 })
        } else {
            None
        }
    }
}

/// The two digits of a number below one hundred.
pub open spec fn two_digits(n: int) -> Seq<char> {
    seq![digit_char((n / 10) as nat), digit_char((n % 10) as nat)]
}

/// `digits` with zeros in front up to `width` characters.
pub open spec fn zero_padded(digits: Seq<char>, width: nat) -> Seq<char> {
    if digits.len() >= width {
        digits
    } else {
        Seq::new((width - digits.len()) as nat, |i: int| '0') + digits
    }
}

/// A year as the `%Y` field writes it: four digits or more, and a sign
/// before years outside 0 to 9999.
pub open spec fn full_year_text(y: int) -> Seq<char> {
    if 0 <= y <= 9999 {
        zero_padded(decimal(y as nat), 4)
    } else if y > 9999 {
        seq!['+'] + zero_padded(decimal(y as nat), 4)
    } else {
        seq!['-'] + zero_padded(decimal((-y) as nat), 4)
    }
}

/// The date as `year-month-day` with the full year.
pub open spec fn iso_date_text(d: Date) -> Seq<char> {
    full_year_text(d.year as int) + seq!['-'] + two_digits(d.month as int) + seq!['-']
        + two_digits(d.day as int)
}

/// The date as `yy-month-day`, with the last two digits of the year.
pub open spec fn short_date_text(d: Date) -> Seq<char> {
    two_digits((d.year as int) % 100) + seq!['-'] + two_digits(d.month as int) + seq!['-']
        + two_digits(d.day as int)
}

/// The format pattern `%Y-%m-%d`.
pub open spec fn full_pattern() -> Seq<char> {
    seq!['%', 'Y', '-', '%', 'm', '-', '%', 'd']
}

/// The format pattern `%y-%m-%d`.
pub open spec fn short_pattern() -> Seq<char> {
    seq!['%', 'y', '-', '%', 'm', '-', '%', 'd']
}

/// Calls chrono's `NaiveDate::checked_add_months`. Its documentation says
/// that the day of the month is kept, or the target month's last day is
/// taken when it is shorter, and that `None` comes back when the result is
/// out of range; its source computes the target month from
/// `year * 12 + month - 1 + months` with a checked addition and refuses a
/// count above `i32::MAX`. `months_after` states exactly that.
#[verifier::external_body]
fn checked_add_months(d: &Date, months: u32) -> (r: Option<Date>)
    requires
        d.valid(),
    ensures
        r == months_after(*d, months as int),
{
    let start = chrono::NaiveDate::from_ymd_opt(d.year, d.month, d.day).unwrap();
    match start.checked_add_months(chrono::Months::new(months)) {
        Some(n) => Some(Date { year: n.year(), month: n.month(), day: n.day() }),
        None => None,
    }
}

/// Calls chrono's `NaiveDate::format` with one of the patterns `%Y-%m-%d`
/// and `%y-%m-%d` and writes the result. In chrono's source `%Y` writes the
/// year zero-padded to four digits, with a sign when it lies outside 0 to
/// 9999, `%y` writes the year modulo 100 (Euclidean) on two digits, and
/// `%m` and `%d` write two digits each.
#[verifier::external_body]
fn format_date(d: &Date, pattern: &str) -> (text: String)
    requires
        d.valid(),
        pattern@ == full_pattern() || pattern@ == short_pattern(),
    ensures
        pattern@ == full_pattern() ==> text@ == iso_date_text(*d),
        pattern@ == short_pattern() ==> text@ == short_date_text(*d),
{
    chrono::NaiveDate::from_ymd_opt(d.year, d.month, d.day).unwrap().format(pattern).to_string()
}

/// `later` is one month after `d`: the next month (of the next year after
/// December), on the same day or, when that month is shorter, on its last
/// day.
pub open spec fn is_one_month_after(d: Date, later: Date) -> bool {
    &&& later.valid()
    &&& d.month < 12 ==> later.year == d.year && later.month == d.month + 1
    &&& d.month == 12 ==> later.year == d.year + 1 && later.month == 1
    &&& later.day == (if d.day <= days_in_month(later.year as int, later.month as int) {
        d.day as int
    } else {
        days_in_month(later.year as int, later.month as int)
    })
}

/// `a` comes before `b` in the calendar.
pub open spec fn is_before(a: Date, b: Date) -> bool {
    ||| a.year < b.year
    ||| a.year == b.year && a.month < b.month
    ||| a.year == b.year && a.month == b.month && a.day < b.day
}

/// The date one month after a valid date exists unless it is in the last
/// month of the supported range; it is one month later, and so comes after
/// it.
pub proof fn lemma_one_month_after(d: Date)
    requires
        d.valid(),
    ensures
        months_after(d, 1) is Some <==> !(d.year == max_year() && d.month == 12),
        months_after(d, 1) matches Some(n) ==> is_one_month_after(d, n) && is_before(d, n),
{
    let total = d.year * 12 + (d.month - 1) + 1;
    assert(total == d.year * 12 + d.month);
    if d.month < 12 {
        assert(total / 12 == d.year && total % 12 == d.month) by (nonlinear_arith)
            requires
                total == d.year * 12 + d.month,
                1 <= d.month < 12,
        ;
    } else {
        assert(total / 12 == d.year + 1 && total % 12 == 0) by (nonlinear_arith)
            requires
                total == d.year * 12 + d.month,
                d.month == 12,
        ;
    }
}

/// The date one month after `d`: the same day of the next month, or the
/// last day of the next month when that month is shorter. `None` only for
/// the last month of the supported range.
pub fn one_month_later(d: &Date) -> (r: Option<Date>)
    requires
        d.valid(),
    ensures
        r == months_after(*d, 1),
        r is Some <==> !(d.year == max_year() && d.month == 12),
        r matches Some(n) ==> {
            &&& n.valid()
            &&& d.month < 12 ==> n.year == d.year && n.month == d.month + 1
            &&& d.month == 12 ==> n.year == d.year + 1 && n.month == 1
            &&& n.day == (if d.day <= days_in_month(n.year as int, n.month as int) {
                d.day as int
            } else {
                days_in_month(n.year as int, n.month as int)
            })
        },
{
    proof {
        lemma_one_month_after(*d);
    }
    checked_add_months(d, 1)
}

/// The date as `%Y-%m-%d` writes it, such as `2024-03-05`.
pub fn iso_text(d: &Date) -> (text: String)
    requires
        d.valid(),
    ensures
        text@ == iso_date_text(*d),
{
    let pattern = "%Y-%m-%d";
    proof { reveal_strlit("%Y-%m-%d"); }
    assert(pattern@ =~= full_pattern());
    format_date(d, pattern)
}

/// The date as `%y-%m-%d` writes it, such as `24-03-05`.
pub fn short_text(d: &Date) -> (text: String)
    requires
        d.valid(),
    ensures
        text@ == short_date_text(*d),
{
    let pattern = "%y-%m-%d";
    proof { reveal_strlit("%y-%m-%d"); }
    assert(pattern@ =~= short_pattern());
    format_date(d, pattern)
}

proof fn lemma_zeros_value(k: nat, s: Seq<char>)
    ensures
        digits_value(Seq::new(k, |i: int| '0') + s) == digits_value(s),
    decreases s.len(), k,
{
    let z = Seq::new(k, |i: int| '0');
    if s.len() == 0 {
        assert(z + s =~= z);
        if k > 0 {
            assert(z.drop_last() =~= Seq::new((k - 1) as nat, |i: int| '0'));
            lemma_zeros_value((k - 1) as nat, s);
            assert(Seq::new((k - 1) as nat, |i: int| '0') + s =~= Seq::new((k - 1) as nat, |i: int| '0'));
        }
    } else {
        lemma_zeros_value(k, s.drop_last());
        assert((z + s).drop_last() =~= z + s.drop_last());
    }
}

proof fn lemma_padded_decimal(n: nat)
    ensures
        digits_value(zero_padded(decimal(n), 4)) == n,
        zero_padded(decimal(n), 4).len() > 0,
        forall|i: int| 0 <= i < zero_padded(decimal(n), 4).len() ==> is_digit(
            #[trigger] zero_padded(decimal(n), 4)[i],
        ),
{
    law_decimal_value(n);
    let d = decimal(n);
    if d.len() < 4 {
        let k = (4 - d.len()) as nat;
        lemma_zeros_value(k, d);
        let p = zero_padded(d, 4);
        assert forall|i: int| 0 <= i < p.len() implies is_digit(#[trigger] p[i]) by {
            if i >= k {
                assert(p[i] == d[i - k]);
            }
        }
    }
}

proof fn lemma_full_year_text_injective(x: int, y: int)
    requires
        full_year_text(x) == full_year_text(y),
    ensures
        x == y,
{
    let (px, py) = (full_year_text(x), full_year_text(y));
    if 0 <= x <= 9999 { lemma_padded_decimal(x as nat); }
    else if x > 9999 { lemma_padded_decimal(x as nat); }
    else { lemma_padded_decimal((-x) as nat); }
    if 0 <= y <= 9999 { lemma_padded_decimal(y as nat); }
    else if y > 9999 { lemma_padded_decimal(y as nat); }
    else { lemma_padded_decimal((-y) as nat); }
    if 0 <= x <= 9999 {
        assert(is_digit(px[0]));
        if 0 <= y <= 9999 {
        } else if y > 9999 {
            assert(py[0] == '+');
        } else {
            assert(py[0] == '-');
        }
    } else if x > 9999 {
        assert(px[0] == '+');
        if 0 <= y <= 9999 {
            assert(is_digit(py[0]));
        } else if y > 9999 {
            assert(px.drop_first() =~= zero_padded(decimal(x as nat), 4));
            assert(py.drop_first() =~= zero_padded(decimal(y as nat), 4));
        } else {
            assert(py[0] == '-');
        }
    } else {
        assert(px[0] == '-');
        if 0 <= y <= 9999 {
            assert(is_digit(py[0]));
        } else if y > 9999 {
            assert(py[0] == '+');
        } else {
            assert(px.drop_first() =~= zero_padded(decimal((-x) as nat), 4));
            assert(py.drop_first() =~= zero_padded(decimal((-y) as nat), 4));
        }
    }
}

proof fn lemma_two_digits_injective(x: int, y: int)
    requires
        0 <= x < 100,
        0 <= y < 100,
        two_digits(x) == two_digits(y),
    ensures
        x == y,
{
    assert(two_digits(x)[0] == two_digits(y)[0]);
    assert(two_digits(x)[1] == two_digits(y)[1]);
    assert(x / 10 == y / 10);
    assert(x % 10 == y % 10);
}

/// Different dates are written differently: the `%Y-%m-%d` text of a valid
/// date determines the date.
pub proof fn law_iso_date_text_injective(a: Date, b: Date)
    requires
        a.valid(),
        b.valid(),
        iso_date_text(a) == iso_date_text(b),
    ensures
        a == b,
{
    let ta = iso_date_text(a);
    let tb = iso_date_text(b);
    let ya = full_year_text(a.year as int);
    let yb = full_year_text(b.year as int);
    assert(ta.len() == ya.len() + 6);
    assert(tb.len() == yb.len() + 6);
    let n = ta.len() as int;
    assert(ta.subrange(0, n - 6) =~= ya);
    assert(tb.subrange(0, n - 6) =~= yb);
    assert(ta.subrange(n - 5, n - 3) =~= two_digits(a.month as int));
    assert(tb.subrange(n - 5, n - 3) =~= two_digits(b.month as int));
    assert(ta.subrange(n - 2, n) =~= two_digits(a.day as int));
    assert(tb.subrange(n - 2, n) =~= two_digits(b.day as int));
    lemma_full_year_text_injective(a.year as int, b.year as int);
    lemma_two_digits_injective(a.month as int, b.month as int);
    lemma_two_digits_injective(a.day as int, b.day as int);
}

} // verus!
