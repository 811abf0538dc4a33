use crate::from_memory::FromMemory;
use vstd::prelude::*;

verus! {

/// Seconds since midnight of January 1, 1970, UTC.
#[derive(Clone, Copy, Debug, PartialEq, Eq, Structural)]
pub struct TimeDate(pub u32);

impl FromMemory for TimeDate {
    open spec fn raw_size() -> nat {
        4
    }

    open spec fn decoded(bytes: Seq<u8>, at: int) -> Self {
        TimeDate(<u32 as FromMemory>::decoded(bytes, at))
    }

    proof fn decoded_is_local(a: Seq<u8>, at_a: int, b: Seq<u8>, at_b: int) {
        <u32 as FromMemory>::decoded_is_local(a, at_a, b, at_b);
    }

    fn size() -> (n: usize) {
        4
    }

    fn from_raw(bytes: &[u8], at: usize) -> (value: Self) {
        TimeDate(<u32 as FromMemory>::from_raw(bytes, at))
    }
}

impl TimeDate {
    /// The moment that the count of seconds starts from.
    pub fn unix_epoch() -> (r: Self)
        ensures
            r.0 == 0,
    {
        Self(0)
    }

    /// The seconds since the epoch.
    pub fn seconds(self) -> (r: u32)
        ensures
            r == self.0,
    {
        self.0
    }
}

impl Default for TimeDate {
    fn default() -> (r: Self)
        ensures
            r.0 == 0,
    {
        Self(0)
    }
}

/// How many seconds a day has.
pub const SECONDS_PER_DAY: u32 = 86400;

/// A moment as the calendar and the clock name it, in UTC.
#[derive(Clone, Copy, Debug, PartialEq, Eq, Structural)]
pub struct CalendarTime {
    pub year: u32,
    /// From 1 for January to 12 for December.
    pub month: u32,
    /// From 1.
    pub day: u32,
    pub hour: u32,
    pub minute: u32,
    pub second: u32,
}

/// Every fourth year is a leap year, but of the years that end centuries
/// only every fourth.
pub open spec fn spec_is_leap_year(year: int) -> bool {
    year % 4 == 0 && (year % 100 != 0 || year % 400 == 0)
}

/// How many days the year has.
pub open spec fn spec_days_in_year(year: int) -> int {
    if spec_is_leap_year(year) {
        366
    } else {
        365
    }
}

/// How many days the month has; zero for what is no month.
pub open spec fn spec_days_in_month(year: int, month: int) -> int {
    if month == 2 {
        if spec_is_leap_year(year) {
            29
        } else {
            28
        }
    } else if month == 4 || month == 6 || month == 9 || month == 11 {
        30
    } else if 1 <= month <= 12 {
        31
    } else {
        0
    }
}

/// How many days lie between the first day of 1970 and the first day of
/// `year`.
pub open spec fn days_before_year(year: int) -> int
    decreases year,
{
    if year <= 1970 {
        0
    } else {
        days_before_year(year - 1) + spec_days_in_year(year - 1)
    }
}

/// How many days of `year` lie before the first day of `month`.
pub open spec fn days_before_month(year: int, month: int) -> int
    decreases month,
{
    if month <= 1 {
        0
    } else {
        days_before_month(year, month - 1) + spec_days_in_month(year, month - 1)
    }
}

/// True when `time` names the moment `seconds` after the epoch: its date
/// is a date of the calendar and lies as many whole days after the first
/// day of 1970 as `seconds` holds, and its time of day is what is left.
pub open spec fn names(time: CalendarTime, seconds: u32) -> bool {
    &&& time.year >= 1970
    &&& 1 <= time.month <= 12
    &&& 1 <= time.day <= spec_days_in_month(time.year as int, time.month as int)
    &&& days_before_year(time.year as int) + days_before_month(
        time.year as int,
        time.month as int,
    ) + (time.day - 1) == seconds / SECONDS_PER_DAY
    &&& time.hour < 24
    &&& time.minute < 60
    &&& time.second < 60
    &&& time.hour * 3600 + time.minute * 60 + time.second == seconds % SECONDS_PER_DAY
}

/// Tells whether `year` is a leap year.
pub fn is_leap_year(year: u32) -> (r: bool)
    ensures
        r == spec_is_leap_year(year as int),
{
    (year % 4 == 0) && ((year % 100 != 0) || (year % 400 == 0))
}

/// How many days February has beyond its 28: one in a leap year.
pub fn leap_days(year: u32) -> (r: u32)
    ensures
        r == (if spec_is_leap_year(year as int) {
            1int
        } else {
            0int
        }),
{
    if is_leap_year(year) {
        1
    } else {
        0
    }
}

/// How many days `year` has.
pub fn days_in_year(year: u32) -> (r: u32)
    ensures
        r == spec_days_in_year(year as int),
{
    365 + leap_days(year)
}

/// How many days the month `month` of `year` has.
pub fn days_in_month(year: u32, month: u32) -> (r: u32)
    requires
        1 <= month <= 12,
    ensures
        r == spec_days_in_month(year as int, month as int),
{
    if month == 2 {
        28 + leap_days(year)
    } else if month == 4 || month == 6 || month == 9 || month == 11 {
        30
    } else {
        31
    }
}

/// The text of a moment: `TimeDate(`, the year in at least four columns,
/// month and day in two digits each, the hour in at least two columns,
/// minute and second in two digits each, and ` UTC)`.
pub uninterp spec fn calendar_text(
    year: u32,
    month: u32,
    day: u32,
    hour: u32,
    minute: u32,
    second: u32,
) -> Seq<char>;

/// Writes a moment out with `format!`: numbers in decimal, padded as
/// `calendar_text` says.
#[verifier::external_body]
fn format_calendar(time: &CalendarTime) -> (text: String)
    ensures
        text@ == calendar_text(
            time.year,
            time.month,
            time.day,
            time.hour,
            time.minute,
            time.second,
        ),
{
    format!(
        "TimeDate({: >4}-{:02}-{:02} {: >2}:{:02}:{:02} UTC)",
        time.year,
        time.month,
        time.day,
        time.hour,
        time.minute,
        time.second
    )
}

impl TimeDate {
    /// The date and the time of day, in UTC.
    pub fn calendar(&self) -> (time: CalendarTime)
        ensures
            names(time, self.0),
    {
        let days: u32 = self.0 / SECONDS_PER_DAY;
        let of_day: u32 = self.0 % SECONDS_PER_DAY;
        let mut year: u32 = 1970;
        let mut left: u32 = days;
        while left >= days_in_year(year)
            invariant
                year >= 1970,
                days_before_year(year as int) + left == days,
                365 * (year - 1970) <= days_before_year(year as int),
                days <= 49710,
            decreases left,
        {
            left = left - days_in_year(year);
            year = year + 1;
        }
        let mut month: u32 = 1;
        while left >= days_in_month(year, month)
            invariant
                1 <= month <= 12,
                left < spec_days_in_year(year as int),
                days_before_year(year as int) + days_before_month(year as int, month as int)
                    + left == days,
                left + days_before_month(year as int, month as int) < spec_days_in_year(
                    year as int,
                ),
            decreases 12 - month,
        {
            proof {
                reveal_with_fuel(days_before_month, 13);
            }
            left = left - days_in_month(year, month);
            month = month + 1;
        }
        CalendarTime {
            year,
            month,
            day: left + 1,
            hour: of_day / 3600,
            minute: of_day / 60 % 60,
            second: of_day % 60,
        }
    }

    /// The moment as text: `TimeDate::UNIX_EPOCH` for the epoch itself, and
    /// else the date and the time of day.
    pub fn to_string(&self) -> (text: String)
        ensures
            self.0 == 0 ==> text@ == "TimeDate::UNIX_EPOCH"@,
            self.0 != 0 ==> exists|time: CalendarTime|
                #[trigger] names(time, self.0) && text@ == calendar_text(
                    time.year,
                    time.month,
                    time.day,
                    time.hour,
                    time.minute,
                    time.second,
                ),
    {
        if self.0 == 0 {
            "TimeDate::UNIX_EPOCH".to_owned()
        } else {
            let time = self.calendar();
            format_calendar(&time)
        }
    }
}

} // verus!
