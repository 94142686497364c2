//! The wall clock, and the time stamp that file names carry.

use vstd::prelude::*;

verus! {

/// A moment as a wall clock and a calendar show it.
#[derive(Clone, Copy, Debug, PartialEq, Eq, Structural)]
pub struct LocalTime {
    pub year: i16,
    pub month: i8,
    pub day: i8,
    pub hour: i8,
    pub minute: i8,
    pub second: i8,
}

/// Whether a year has a 29th of February.
pub open spec fn leap_year(year: int) -> bool {
    year % 4 == 0 && (year % 100 != 0 || year % 400 == 0)
}

/// The number of days of a month.
pub open spec fn days_in_month(year: int, month: int) -> int {
    if month == 2 {
        if leap_year(year) { 29 } else { 28 }
    } else if month == 4 || month == 6 || month == 9 || month == 11 {
        30
    } else {
        31
    }
}

/// The decimal digit `n`.
pub open spec fn digit(n: int) -> char {
    (('0' as int) + n) as char
}

/// The last two decimal digits of `n`.
pub open spec fn two_digits(n: int) -> Seq<char> {
    seq![digit(n / 10 % 10), digit(n % 10)]
}

/// The last three decimal digits of `n`.
pub open spec fn three_digits(n: int) -> Seq<char> {
    seq![digit(n / 100 % 10)] + two_digits(n)
}

/// The last four decimal digits of `n`.
pub open spec fn four_digits(n: int) -> Seq<char> {
    seq![digit(n / 1000 % 10)] + three_digits(n)
}

/// A year, zero padded to a width of four, the minus sign being part of the
/// width.
pub open spec fn year_text(year: int) -> Seq<char> {
    if year >= 0 {
        four_digits(year)
    } else if year >= -999 {
        seq!['-'] + three_digits(-year)
    } else {
        seq!['-'] + four_digits(-year)
    }
}

impl LocalTime {
    /// Whether the fields are a day of the calendar and a time of that day.
    pub open spec fn valid(self) -> bool {
        &&& -9999 <= self.year <= 9999
        &&& 1 <= self.month <= 12
        &&& 1 <= self.day <= days_in_month(self.year as int, self.month as int)
        &&& 0 <= self.hour <= 23
        &&& 0 <= self.minute <= 59
        &&& 0 <= self.second <= 59
    }

    /// The time stamp: hour, minute and second, then month, day and year.
    pub open spec fn stamp_text(self) -> Seq<char> {
        two_digits(self.hour as int).push('_') + two_digits(self.minute as int).push('_')
            + two_digits(self.second as int).push('-') + two_digits(self.month as int).push('_')
            + two_digits(self.day as int).push('_') + year_text(self.year as int)
    }

    /// Whether the fields are a day of the calendar and a time of that day.
    pub fn is_valid(&self) -> (r: bool)
        ensures
            r == self.valid(),
    {
        let leap = self.year % 4 == 0 && (self.year % 100 != 0 || self.year % 400 == 0);
        let days: i8 = if self.month == 2 {
            if leap { 29 } else { 28 }
        } else if self.month == 4 || self.month == 6 || self.month == 9 || self.month == 11 {
            30
        } else {
            31
        };
        -9999 <= self.year && self.year <= 9999 && 1 <= self.month && self.month <= 12
            && 1 <= self.day && self.day <= days && 0 <= self.hour && self.hour <= 23
            && 0 <= self.minute && self.minute <= 59 && 0 <= self.second && self.second <= 59
    }

    /// The current time in the time zone of this machine.
    ///
    /// What the clock shows is not stated, only that it is a valid time.
    pub fn now() -> (t: LocalTime)
        ensures
            t.valid(),
    {
        local_now()
    }

    /// The time stamp that file names carry, such as `23_05_09-07_14_2024`.
    pub fn stamp(&self) -> (s: String)
        requires
            self.valid(),
        ensures
            s@ == self.stamp_text(),
    {
        format_stamp("%H_%M_%S-%m_%d_%Y", self)
    }
}

/// `jiff::Timestamp::now`, put into `jiff::tz::TimeZone::system()` by
/// `Timestamp::to_zoned`. The fields of the zoned time are a valid calendar
/// day and a time of that day; which one depends on the clock and on the time
/// zone of the machine. The call panics if the clock is set to a time outside
/// of the years -9999 to 9999.
#[verifier::external_body]
fn local_now() -> (t: LocalTime)
    ensures
        t.valid(),
{
    let z = jiff::Timestamp::now().to_zoned(jiff::tz::TimeZone::system());
    LocalTime {
        year: z.year(),
        month: z.month(),
        day: z.day(),
        hour: z.hour(),
        minute: z.minute(),
        second: z.second(),
    }
}

/// `jiff::civil::DateTime::strftime` on a valid time, with hour, minute,
/// second, month and day as two digits each and the year zero padded to a
/// width of four.
#[verifier::external_body]
fn format_stamp(format: &str, t: &LocalTime) -> (s: String)
    requires
        t.valid(),
        format@ == "%H_%M_%S-%m_%d_%Y"@,
    ensures
        s@ == t.stamp_text(),
{
    jiff::civil::DateTime::new(t.year, t.month, t.day, t.hour, t.minute, t.second, 0)
        .unwrap()
        .strftime(format)
        .to_string()
}

/// Ten digits are ten characters, none of which is a minus sign.
proof fn lemma_digit_injective(a: int, b: int)
    requires
        0 <= a <= 9,
        0 <= b <= 9,
    ensures
        digit(a) == digit(b) ==> a == b,
        digit(a) != '-',
{
}

/// Decimal places determine a number.
proof fn lemma_places(a: int, b: int)
    requires
        0 <= a <= 9999,
        0 <= b <= 9999,
        a / 1000 % 10 == b / 1000 % 10,
        a / 100 % 10 == b / 100 % 10,
        a / 10 % 10 == b / 10 % 10,
        a % 10 == b % 10,
    ensures
        a == b,
{
    assert(a / 1000 == b / 1000);
    assert(a / 100 == a / 1000 * 10 + a / 100 % 10);
    assert(b / 100 == b / 1000 * 10 + b / 100 % 10);
    assert(a / 10 == a / 100 * 10 + a / 10 % 10);
    assert(b / 10 == b / 100 * 10 + b / 10 % 10);
}

/// Equal characters at one place stand for equal digits.
proof fn lemma_equal_digits(s: Seq<char>, t: Seq<char>, i: int, a: int, b: int)
    requires
        s == t,
        s[i] == digit(a % 10),
        t[i] == digit(b % 10),
    ensures
        a % 10 == b % 10,
{
    lemma_digit_injective(a % 10, b % 10);
}

/// Two digits tell every number below a hundred apart.
proof fn lemma_two_digits_injective(a: int, b: int)
    requires
        0 <= a <= 99,
        0 <= b <= 99,
        two_digits(a) == two_digits(b),
    ensures
        a == b,
{
    lemma_equal_digits(two_digits(a), two_digits(b), 0, a / 10, b / 10);
    lemma_equal_digits(two_digits(a), two_digits(b), 1, a, b);
    lemma_places(a, b);
}

/// Three digits tell every number below a thousand apart.
proof fn lemma_three_digits_injective(a: int, b: int)
    requires
        0 <= a <= 999,
        0 <= b <= 999,
        three_digits(a) == three_digits(b),
    ensures
        a == b,
{
    lemma_equal_digits(three_digits(a), three_digits(b), 0, a / 100, b / 100);
    lemma_equal_digits(three_digits(a), three_digits(b), 1, a / 10, b / 10);
    lemma_equal_digits(three_digits(a), three_digits(b), 2, a, b);
    lemma_places(a, b);
}

/// Four digits tell every number below ten thousand apart.
proof fn lemma_four_digits_injective(a: int, b: int)
    requires
        0 <= a <= 9999,
        0 <= b <= 9999,
        four_digits(a) == four_digits(b),
    ensures
        a == b,
{
    lemma_equal_digits(four_digits(a), four_digits(b), 0, a / 1000, b / 1000);
    lemma_equal_digits(four_digits(a), four_digits(b), 1, a / 100, b / 100);
    lemma_equal_digits(four_digits(a), four_digits(b), 2, a / 10, b / 10);
    lemma_equal_digits(four_digits(a), four_digits(b), 3, a, b);
    lemma_places(a, b);
}

/// The text of a year tells the years apart.
proof fn lemma_year_text_injective(a: int, b: int)
    requires
        -9999 <= a <= 9999,
        -9999 <= b <= 9999,
        year_text(a) == year_text(b),
    ensures
        a == b,
{
    let x = year_text(a);
    let y = year_text(b);
    assert(x[0] == y[0]);
    if a >= 0 {
        assert(x[0] == digit(a / 1000 % 10));
        lemma_digit_injective(a / 1000 % 10, 0);
    }
    if b >= 0 {
        assert(y[0] == digit(b / 1000 % 10));
        lemma_digit_injective(b / 1000 % 10, 0);
    }
    if a >= 0 && b >= 0 {
        lemma_four_digits_injective(a, b);
    } else if a < -999 {
        assert(x.len() == 5);
        assert(four_digits(-a) =~= x.skip(1));
        assert(four_digits(-b) =~= y.skip(1));
        lemma_four_digits_injective(-a, -b);
    } else {
        assert(x.len() == 4);
        assert(three_digits(-a) =~= x.skip(1));
        assert(three_digits(-b) =~= y.skip(1));
        lemma_three_digits_injective(-a, -b);
    }
}

/// Where the parts of a stamp stand.
proof fn lemma_stamp_parts(
    hour: Seq<char>,
    minute: Seq<char>,
    second: Seq<char>,
    month: Seq<char>,
    day: Seq<char>,
    year: Seq<char>,
)
    requires
        hour.len() == 2,
        minute.len() == 2,
        second.len() == 2,
        month.len() == 2,
        day.len() == 2,
    ensures
        ({
            let x = hour.push('_') + minute.push('_') + second.push('-') + month.push('_')
                + day.push('_') + year;
            &&& hour == x.subrange(0, 2)
            &&& minute == x.subrange(3, 5)
            &&& second == x.subrange(6, 8)
            &&& month == x.subrange(9, 11)
            &&& day == x.subrange(12, 14)
            &&& year == x.skip(15)
        }),
{
    let x = hour.push('_') + minute.push('_') + second.push('-') + month.push('_')
        + day.push('_') + year;
    assert(hour =~= x.subrange(0, 2));
    assert(minute =~= x.subrange(3, 5));
    assert(second =~= x.subrange(6, 8));
    assert(month =~= x.subrange(9, 11));
    assert(day =~= x.subrange(12, 14));
    assert(year =~= x.skip(15));
}

/// The parts of two equal stamps are equal.
proof fn lemma_equal_stamps(a: LocalTime, b: LocalTime)
    requires
        a.stamp_text() == b.stamp_text(),
    ensures
        two_digits(a.hour as int) == two_digits(b.hour as int),
        two_digits(a.minute as int) == two_digits(b.minute as int),
        two_digits(a.second as int) == two_digits(b.second as int),
        two_digits(a.month as int) == two_digits(b.month as int),
        two_digits(a.day as int) == two_digits(b.day as int),
        year_text(a.year as int) == year_text(b.year as int),
{
    lemma_stamp_parts(
        two_digits(a.hour as int),
        two_digits(a.minute as int),
        two_digits(a.second as int),
        two_digits(a.month as int),
        two_digits(a.day as int),
        year_text(a.year as int),
    );
    lemma_stamp_parts(
        two_digits(b.hour as int),
        two_digits(b.minute as int),
        two_digits(b.second as int),
        two_digits(b.month as int),
        two_digits(b.day as int),
        year_text(b.year as int),
    );
}

/// Two different times have two different stamps.
pub proof fn law_stamp_identifies_time(a: LocalTime, b: LocalTime)
    requires
        a.valid(),
        b.valid(),
        a.stamp_text() == b.stamp_text(),
    ensures
        a == b,
{
    lemma_equal_stamps(a, b);
    lemma_two_digits_injective(a.hour as int, b.hour as int);
    lemma_two_digits_injective(a.minute as int, b.minute as int);
    lemma_two_digits_injective(a.second as int, b.second as int);
    lemma_two_digits_injective(a.month as int, b.month as int);
    lemma_two_digits_injective(a.day as int, b.day as int);
    lemma_year_text_injective(a.year as int, b.year as int);
}

/// A time is valid exactly when its year has four digits at most, its day is one
/// of its month, and its hour, minute and second are those of a day. April, June,
/// September and November have 30 days, February has 28, or 29 in every fourth
/// year but not in every hundredth unless in every four hundredth, and all other
/// months have 31.
pub proof fn law_days_of_the_calendar(t: LocalTime)
    ensures
        t.valid() <==> {
            let y = t.year as int;
            let m = t.month as int;
            let leap = (y % 4 == 0 && y % 100 != 0) || y % 400 == 0;
            &&& -10000 < y < 10000
            &&& 0 < m < 13
            &&& 0 < t.day <= 31
            &&& (m == 4 || m == 6 || m == 9 || m == 11 ==> t.day <= 30)
            &&& (m == 2 && leap ==> t.day <= 29)
            &&& (m == 2 && !leap ==> t.day <= 28)
            &&& 0 <= t.hour < 24
            &&& 0 <= t.minute < 60
            &&& 0 <= t.second < 60
        },
{
}

/// What a character that is a digit counts.
proof fn lemma_digit_value(n: int)
    requires
        0 <= n <= 9,
    ensures
        digit(n) as int == 48 + n,
{
}

/// The fields of a time can be read off its stamp: two digits each for hour,
/// minute, second, month and day, then the year in four digits, or behind a minus
/// sign in three if that is enough and in four otherwise.
pub proof fn law_stamp_shows_the_time(t: LocalTime)
    requires
        t.valid(),
    ensures
        ({
            let s = t.stamp_text();
            let y = t.year as int;
            &&& (s[0] as int - 48) * 10 + (s[1] as int - 48) == t.hour
            &&& s[2] == '_'
            &&& (s[3] as int - 48) * 10 + (s[4] as int - 48) == t.minute
            &&& s[5] == '_'
            &&& (s[6] as int - 48) * 10 + (s[7] as int - 48) == t.second
            &&& s[8] == '-'
            &&& (s[9] as int - 48) * 10 + (s[10] as int - 48) == t.month
            &&& s[11] == '_'
            &&& (s[12] as int - 48) * 10 + (s[13] as int - 48) == t.day
            &&& s[14] == '_'
            &&& y >= 0 ==> s.len() == 19 && (s[15] as int - 48) * 1000 + (s[16] as int - 48) * 100
                + (s[17] as int - 48) * 10 + (s[18] as int - 48) == y
            &&& -1000 < y < 0 ==> s.len() == 19 && s[15] == '-' && (s[16] as int - 48) * 100 + (
            s[17] as int - 48) * 10 + (s[18] as int - 48) == -y
            &&& y <= -1000 ==> s.len() == 20 && s[15] == '-' && (s[16] as int - 48) * 1000 + (
            s[17] as int - 48) * 100 + (s[18] as int - 48) * 10 + (s[19] as int - 48) == -y
            &&& forall|i: int|
                0 <= i < s.len() ==> (#[trigger] s[i] == '_') || s[i] == '-' || 48 <= s[i] as int
                    <= 57
        }),
{
    let s = t.stamp_text();
    let y = t.year as int;
    let hour = two_digits(t.hour as int);
    let minute = two_digits(t.minute as int);
    let second = two_digits(t.second as int);
    let month = two_digits(t.month as int);
    let day = two_digits(t.day as int);
    let year = year_text(y);
    lemma_stamp_parts(hour, minute, second, month, day, year);
    lemma_two_digits_value(t.hour as int);
    lemma_two_digits_value(t.minute as int);
    lemma_two_digits_value(t.second as int);
    lemma_two_digits_value(t.month as int);
    lemma_two_digits_value(t.day as int);
    assert(s.subrange(0, 2)[0] == s[0] && s.subrange(0, 2)[1] == s[1]);
    assert(s.subrange(3, 5)[0] == s[3] && s.subrange(3, 5)[1] == s[4]);
    assert(s.subrange(6, 8)[0] == s[6] && s.subrange(6, 8)[1] == s[7]);
    assert(s.subrange(9, 11)[0] == s[9] && s.subrange(9, 11)[1] == s[10]);
    assert(s.subrange(12, 14)[0] == s[12] && s.subrange(12, 14)[1] == s[13]);
    lemma_year_value(y);
    assert forall|i: int| 15 <= i < s.len() implies #[trigger] s[i] == year[i - 15] by {
        assert(s.skip(15)[i - 15] == s[i]);
    }
    assert(s.len() == 15 + year.len());
    assert forall|i: int| 0 <= i < s.len() implies (#[trigger] s[i] == '_') || s[i] == '-' || 48
        <= s[i] as int <= 57 by {
        if i >= 15 {
            assert(s[i] == year[i - 15]);
        }
    }
}

/// The value of two digits.
proof fn lemma_two_digits_value(n: int)
    requires
        0 <= n <= 99,
    ensures
        ({
            let d = two_digits(n);
            &&& d.len() == 2
            &&& 48 <= d[0] as int <= 57 && 48 <= d[1] as int <= 57
            &&& (d[0] as int - 48) * 10 + (d[1] as int - 48) == n
        }),
{
    lemma_digit_value(n / 10 % 10);
    lemma_digit_value(n % 10);
}

/// The value of the text of a year.
proof fn lemma_year_value(y: int)
    requires
        -9999 <= y <= 9999,
    ensures
        ({
            let d = year_text(y);
            &&& y >= 0 ==> d.len() == 4 && (d[0] as int - 48) * 1000 + (d[1] as int - 48) * 100 + (
            d[2] as int - 48) * 10 + (d[3] as int - 48) == y
            &&& -1000 < y < 0 ==> d.len() == 4 && d[0] == '-' && (d[1] as int - 48) * 100 + (
            d[2] as int - 48) * 10 + (d[3] as int - 48) == -y
            &&& y <= -1000 ==> d.len() == 5 && d[0] == '-' && (d[1] as int - 48) * 1000 + (
            d[2] as int - 48) * 100 + (d[3] as int - 48) * 10 + (d[4] as int - 48) == -y
            &&& forall|i: int|
                0 <= i < d.len() ==> (#[trigger] d[i] == '-') || 48 <= d[i] as int <= 57
        }),
{
    let n = if y >= 0 {
        y
    } else {
        -y
    };
    lemma_digit_value(n / 1000 % 10);
    lemma_digit_value(n / 100 % 10);
    lemma_digit_value(n / 10 % 10);
    lemma_digit_value(n % 10);
    assert(n / 100 == n / 1000 * 10 + n / 100 % 10);
    assert(n / 10 == n / 100 * 10 + n / 10 % 10);
    assert(n == n / 10 * 10 + n % 10);
}

} // verus!
