//! Calendar dates as text.
use crate::common::Date;
use crate::text::decimal;
use chrono::{Datelike, NaiveDate};
use vstd::arithmetic::div_mod::lemma_div_denominator;
use vstd::prelude::*;

verus! {

/// A leap year of the Gregorian calendar.
pub open spec fn leap(year: int) -> bool {
    year % 4 == 0 && (year % 100 != 0 || year % 400 == 0)
}

/// The number of days of a month.
pub open spec fn days_in_month(year: int, month: int) -> int {
    if month == 2 {
        if leap(year) {
            29
        } else {
            28
        }
    } else if month == 4 || month == 6 || month == 9 || month == 11 {
        30
    } else {
        31
    }
}

/// There is such a day.
pub open spec fn is_day(date: Date) -> bool {
    1 <= date.month <= 12 && 1 <= date.day <= days_in_month(date.year as int, date.month as int)
}

/// `n` in decimal, with zeros in front up to `width` digits.
pub open spec fn zero_padded(n: nat, width: nat) -> Seq<char> {
    if decimal(n).len() < width {
        Seq::new((width - decimal(n).len()) as nat, |i: int| '0') + decimal(n)
    } else {
        decimal(n)
    }
}

/// The month and the day, with the dashes in front of them.
pub open spec fn month_and_day(date: Date) -> Seq<char> {
    "-"@ + zero_padded(date.month as nat, 2) + "-"@ + zero_padded(date.day as nat, 2)
}

/// A year of four digits; others are written with their sign.
pub open spec fn signed_year(year: int) -> Seq<char> {
    if 0 <= year <= 9999 {
        zero_padded(year as nat, 4)
    } else if year < 0 {
        "-"@ + zero_padded((-year) as nat, 4)
    } else {
        "+"@ + zero_padded(year as nat, 4)
    }
}

/// A date as it stands in an entry field.
pub open spec fn date_text(date: Date) -> Seq<char> {
    signed_year(date.year as int) + month_and_day(date)
}

/// The dates that chrono can hold.
pub open spec fn in_chrono_range(date: Date) -> bool {
    is_day(date) && -262_143 <= date.year <= 262_142
}

/// The dates that the time crate can hold.
pub open spec fn in_time_range(date: Date) -> bool {
    is_day(date) && -9999 <= date.year <= 9999
}

/// The date that chrono reads out of a text of the form `%Y-%m-%d`.
pub uninterp spec fn read_date(text: Seq<char>) -> Option<Date>;

/// `NaiveDate::format` of chrono with `%Y-%m-%d`: the year in four digits, or
/// with a sign where it is negative or longer, then month and day in two.
#[verifier::external_body]
pub(crate) fn format_date(date: &Date) -> (r: String)
    requires
        in_chrono_range(*date),
    ensures
        r@ == date_text(*date),
{
    let (month, day) = (u32::from(date.month), u32::from(date.day));
    NaiveDate::from_ymd_opt(date.year, month, day).unwrap().format("%Y-%m-%d").to_string()
}

/// `NaiveDate::parse_from_str` of chrono with `%Y-%m-%d`. What it accepts is
/// named, not spelled out: it skips white space and takes short numbers too.
/// It only returns days that exist and that chrono can hold, and it reads back
/// what [`format_date`] writes.
#[verifier::external_body]
pub(crate) fn parse_date(text: &str) -> (r: Option<Date>)
    ensures
        r == read_date(text@),
        r matches Some(date) ==> in_chrono_range(date),
        forall|date: Date| in_chrono_range(date) && text@ == #[trigger] date_text(date) ==> r
            == Some(date),
{
    NaiveDate::parse_from_str(text, "%Y-%m-%d").ok().map(
        |d| Date { year: d.year(), month: d.month() as u8, day: d.day() as u8 },
    )
}

/// `Date::format` of the time crate with `[year]-[month]-[day]`: the year in
/// four digits, with a minus sign where it is negative, then month and day in
/// two.
#[verifier::external_body]
fn format_release_date(date: &Date) -> (r: String)
    requires
        in_time_range(*date),
    ensures
        r@ == date_text(*date),
{
    let format = time::format_description::parse_borrowed::<3>("[year]-[month]-[day]").unwrap();
    let month = time::Month::try_from(date.month).unwrap();
    time::Date::from_calendar_date(date.year, month, date.day).unwrap().format(&format).unwrap()
}

/// A moment on the clock of the user.
#[derive(Clone, Copy, Debug, PartialEq, Eq, Structural)]
pub struct Timestamp {
    pub date: Date,
    pub hour: u8,
    pub minute: u8,
    pub second: u8,
}

/// There is such a moment.
pub open spec fn is_moment(moment: Timestamp) -> bool {
    in_chrono_range(moment.date) && moment.hour < 24 && moment.minute < 60 && moment.second < 60
}

/// A moment as it stands in a name.
pub open spec fn moment_text(moment: Timestamp) -> Seq<char> {
    date_text(moment.date) + " "@ + zero_padded(moment.hour as nat, 2) + ":"@ + zero_padded(
        moment.minute as nat,
        2,
    ) + ":"@ + zero_padded(moment.second as nat, 2)
}

/// `NaiveDateTime::format` of chrono with `%Y-%m-%d %H:%M:%S`: the date as
/// [`format_date`] writes it, then hour, minute and second in two digits.
#[verifier::external_body]
pub(crate) fn format_moment(moment: &Timestamp) -> (r: String)
    requires
        is_moment(*moment),
    ensures
        r@ == moment_text(*moment),
{
    let (month, day) = (u32::from(moment.date.month), u32::from(moment.date.day));
    let (hour, minute) = (u32::from(moment.hour), u32::from(moment.minute));
    let date = NaiveDate::from_ymd_opt(moment.date.year, month, day).unwrap();
    let time = date.and_hms_opt(hour, minute, u32::from(moment.second)).unwrap();
    time.format("%Y-%m-%d %H:%M:%S").to_string()
}

/// The text of the release date label.
pub open spec fn release_text(date: Option<Date>) -> Seq<char> {
    match date {
        Some(date) => date_text(date),
        None => "-"@,
    }
}

/// The release date of an album, or a dash.
pub fn release_date_label(date: &Option<Date>) -> (r: String)
    requires
        date matches Some(d) ==> in_time_range(*d),
    ensures
        r@ == release_text(*date),
{
    match date {
        Some(d) => format_release_date(d),
        None => "-".to_owned(),
    }
}

proof fn two_digits(n: nat)
    requires
        n < 100,
    ensures
        zero_padded(n, 2).len() == 2,
        zero_padded(n, 2)[0] as int == 0x30 + n / 10,
        zero_padded(n, 2)[1] as int == 0x30 + n % 10,
{
    reveal_with_fuel(decimal, 3);
    if n < 10 {
        assert(decimal(n).len() == 1);
        assert(zero_padded(n, 2) =~= seq!['0'] + decimal(n));
    } else {
        assert(decimal(n / 10) =~= seq![crate::text::digit(n / 10)]);
        assert(decimal(n).len() == 2);
    }
}

proof fn four_digits(n: nat)
    requires
        n < 10000,
    ensures
        zero_padded(n, 4).len() == 4,
        zero_padded(n, 4)[0] as int == 0x30 + n / 1000,
        zero_padded(n, 4)[1] as int == 0x30 + n / 100 % 10,
        zero_padded(n, 4)[2] as int == 0x30 + n / 10 % 10,
        zero_padded(n, 4)[3] as int == 0x30 + n % 10,
{
    reveal_with_fuel(decimal, 5);
    if n < 10 {
        assert(zero_padded(n, 4) =~= seq!['0', '0', '0'] + decimal(n));
    } else if n < 100 {
        assert(decimal(n).len() == 2);
        assert(zero_padded(n, 4) =~= seq!['0', '0'] + decimal(n));
    } else if n < 1000 {
        assert(decimal(n).len() == 3);
        assert(zero_padded(n, 4) =~= seq!['0'] + decimal(n));
    } else {
        assert(decimal(n).len() == 4);
    }
}

/// A date of a year with four digits is written with ten characters, dashes in
/// fifth and eighth place: first the year, then the month, then the day.
pub proof fn dates_are_ten_characters(date: Date)
    requires
        is_day(date),
        0 <= date.year <= 9999,
    ensures
        date_text(date).len() == 10,
        date_text(date)[4] == '-',
        date_text(date)[7] == '-',
        date_text(date)[0] as int == 0x30 + date.year / 1000,
        date_text(date)[1] as int == 0x30 + date.year / 100 % 10,
        date_text(date)[2] as int == 0x30 + date.year / 10 % 10,
        date_text(date)[3] as int == 0x30 + date.year % 10,
        date_text(date)[5] as int == 0x30 + date.month / 10,
        date_text(date)[6] as int == 0x30 + date.month % 10,
        date_text(date)[8] as int == 0x30 + date.day / 10,
        date_text(date)[9] as int == 0x30 + date.day % 10,
{
    reveal_strlit("-");
    assert("-"@.len() == 1);
    four_digits(date.year as nat);
    two_digits(date.month as nat);
    two_digits(date.day as nat);
    let year = zero_padded(date.year as nat, 4);
    let month = zero_padded(date.month as nat, 2);
    let day = zero_padded(date.day as nat, 2);
    let text = date_text(date);
    assert(text =~= year + ("-"@ + month + "-"@ + day));
    assert(text.len() == 10);
}

proof fn digits_make_up(n: int)
    requires
        0 <= n < 10000,
    ensures
        1000 * (n / 1000) + 100 * (n / 100 % 10) + 10 * (n / 10 % 10) + n % 10 == n,
{
    let (tens, hundreds) = (n / 10, n / 100);
    lemma_div_denominator(n, 10, 10);
    lemma_div_denominator(n, 100, 10);
    assert(n == 10 * tens + n % 10);
    assert(tens == 10 * hundreds + tens % 10);
    assert(hundreds == 10 * (hundreds / 10) + hundreds % 10);
}

/// Read from the front, a date gives its year, month and day.
pub proof fn dates_read_as_numbers(date: Date)
    requires
        is_day(date),
        0 <= date.year <= 9999,
    ensures
        ({
            let text = date_text(date);
            &&& text.len() == 10
            &&& 1000 * (text[0] as int - 0x30) + 100 * (text[1] as int - 0x30) + 10 * (
            text[2] as int - 0x30) + (text[3] as int - 0x30) == date.year
            &&& text[4] == '-'
            &&& 10 * (text[5] as int - 0x30) + (text[6] as int - 0x30) == date.month
            &&& text[7] == '-'
            &&& 10 * (text[8] as int - 0x30) + (text[9] as int - 0x30) == date.day
        }),
{
    dates_are_ten_characters(date);
    digits_make_up(date.year as int);
}

/// The label of a release date reads year, month and day, each in as many digits
/// as there are places for it; without a date it is a dash.
pub proof fn the_label_reads_year_month_and_day(date: Date, label: String, without: String)
    requires
        is_day(date),
        0 <= date.year <= 9999,
        call_ensures(release_date_label, (&Some(date),), label),
        call_ensures(release_date_label, (&None,), without),
    ensures
        label@.len() == 10,
        1000 * (label@[0] as int - 0x30) + 100 * (label@[1] as int - 0x30) + 10 * (label@[2] as int
            - 0x30) + (label@[3] as int - 0x30) == date.year,
        label@[4] == '-',
        10 * (label@[5] as int - 0x30) + (label@[6] as int - 0x30) == date.month,
        label@[7] == '-',
        10 * (label@[8] as int - 0x30) + (label@[9] as int - 0x30) == date.day,
        without@ == seq!['-'],
{
    reveal_strlit("-");
    assert("-"@ =~= seq!['-']);
    assert(label@ == date_text(date));
    dates_read_as_numbers(date);
}

/// A moment of a year with four digits is written as its date, a space, and hour,
/// minute and second in two digits each, with colons between them.
pub proof fn moments_are_nineteen_characters(moment: Timestamp)
    requires
        is_moment(moment),
        0 <= moment.date.year <= 9999,
    ensures
        moment_text(moment).len() == 19,
        moment_text(moment).take(10) == date_text(moment.date),
        moment_text(moment)[10] == ' ',
        moment_text(moment)[13] == ':',
        moment_text(moment)[16] == ':',
        moment_text(moment)[11] as int == 0x30 + moment.hour / 10,
        moment_text(moment)[12] as int == 0x30 + moment.hour % 10,
        moment_text(moment)[14] as int == 0x30 + moment.minute / 10,
        moment_text(moment)[15] as int == 0x30 + moment.minute % 10,
        moment_text(moment)[17] as int == 0x30 + moment.second / 10,
        moment_text(moment)[18] as int == 0x30 + moment.second % 10,
{
    reveal_strlit(" ");
    reveal_strlit(":");
    assert(" "@.len() == 1);
    assert(":"@.len() == 1);
    dates_are_ten_characters(moment.date);
    two_digits(moment.hour as nat);
    two_digits(moment.minute as nat);
    two_digits(moment.second as nat);
    assert(moment_text(moment).take(10) =~= date_text(moment.date));
}

/// Read from the front, a moment gives its year, month, day, hour, minute and
/// second.
pub proof fn moments_read_as_numbers(moment: Timestamp)
    requires
        is_moment(moment),
        0 <= moment.date.year <= 9999,
    ensures
        ({
            let time = moment_text(moment);
            &&& time.len() == 19
            &&& 1000 * (time[0] as int - 0x30) + 100 * (time[1] as int - 0x30) + 10 * (
            time[2] as int - 0x30) + (time[3] as int - 0x30) == moment.date.year
            &&& 10 * (time[5] as int - 0x30) + (time[6] as int - 0x30) == moment.date.month
            &&& 10 * (time[8] as int - 0x30) + (time[9] as int - 0x30) == moment.date.day
            &&& 10 * (time[11] as int - 0x30) + (time[12] as int - 0x30) == moment.hour
            &&& 10 * (time[14] as int - 0x30) + (time[15] as int - 0x30) == moment.minute
            &&& 10 * (time[17] as int - 0x30) + (time[18] as int - 0x30) == moment.second
        }),
{
    let time = moment_text(moment);
    dates_read_as_numbers(moment.date);
    moments_are_nineteen_characters(moment);
    assert forall|k: int| 0 <= k < 10 implies #[trigger] time[k] == date_text(moment.date)[k] by {
        assert(time.take(10)[k] == time[k]);
    }
}

/// The calendar is the Gregorian one: a year is a leap year if four divides it, but
/// not if a hundred does, unless four hundred does. Only then February has
/// twenty-nine days; else twenty-eight, and every other month thirty or thirty-one.
pub proof fn the_calendar_is_gregorian(year: i32)
    ensures
        is_day(Date { year, month: 2, day: 28 }),
        !is_day(Date { year, month: 2, day: 30 }),
        is_day(Date { year, month: 2, day: 29 }) <==> year as int % 4 == 0 && (year as int % 100
            != 0 || year as int % 400 == 0),
        forall|month: u8|
            (month == 4 || month == 6 || month == 9 || month == 11) ==> #[trigger] is_day(
                Date { year, month, day: 30 },
            ) && !is_day(Date { year, month, day: 31 }),
        forall|month: u8|
            (month == 1 || month == 3 || month == 5 || month == 7 || month == 8 || month == 10
                || month == 12) ==> #[trigger] is_day(Date { year, month, day: 31 }) && !is_day(
                Date { year, month, day: 32 },
            ),
        forall|month: u8, day: u8| #[trigger]
            is_day(Date { year, month, day }) ==> 1 <= month <= 12 && 1 <= day <= 31,
        forall|month: u8, day: u8| 1 <= month <= 12 && 1 <= day <= 28 ==> #[trigger] is_day(
            Date { year, month, day },
        ),
{
}

/// A year before the first is written like the one as far behind it, with a minus
/// sign in front.
pub proof fn early_years_have_a_minus_sign(
    early: Date,
    late: Date,
    label: String,
    late_label: String,
)
    requires
        in_time_range(early),
        in_time_range(late),
        early.year < 0,
        late.year == -early.year,
        late.month == early.month,
        late.day == early.day,
        call_ensures(release_date_label, (&Some(early),), label),
        call_ensures(release_date_label, (&Some(late),), late_label),
    ensures
        label@ == seq!['-'] + late_label@,
{
    reveal_strlit("-");
    assert("-"@ =~= seq!['-']);
    assert(label@ == date_text(early));
    assert(late_label@ == date_text(late));
    assert(label@ =~= seq!['-'] + late_label@);
}

} // verus!
