//! The weather snapshot and what the dashboard derives from it.

use vstd::prelude::*;
use crate::text::{decimal, digit, digit_char, nth_word, push_decimal, second_word};

verus! {

/// A temperature in tenths of a degree.
#[derive(Default, Debug, Clone, Copy, PartialEq, Eq)]
pub struct Temperature {
    pub tenths: i32,
}

/// A snapshot of the weather at one place: where, how it is now, and the
/// forecast.
#[derive(Default, Debug, Clone, PartialEq)]
pub struct Weather {
    pub location: Location,
    pub current: Current,
    pub forecast: Forecast,
}

/// The place a snapshot is about.
#[derive(Default, Debug, Clone, PartialEq)]
pub struct Location {
    pub name: String,
    pub region: String,
    pub country: String,
    pub tz_id: String,
    pub localtime_epoch: i64,
    pub localtime: String,
}

/// The conditions at the time of the snapshot.
#[derive(Default, Debug, Clone, PartialEq)]
pub struct Current {
    pub last_updated_epoch: i64,
    pub last_updated: String,
    pub temp_c: Temperature,
    pub temp_f: Temperature,
    pub is_day: i64,
    pub condition: Condition,
    pub wind_degree: i64,
    pub wind_dir: String,
    pub humidity: i64,
    pub cloud: i64,
}

/// The condition of the sky, now.
#[derive(Default, Debug, Clone, PartialEq)]
pub struct Condition {
    pub text: String,
    pub icon: String,
    pub code: i64,
}

/// The forecast: its days in order, today first.
#[derive(Default, Debug, Clone, PartialEq)]
pub struct Forecast {
    pub forecastday: Vec<Forecastday>,
}

/// One day of the forecast, with its samples in order of the time of day.
#[derive(Default, Debug, Clone, PartialEq)]
pub struct Forecastday {
    pub date: String,
    pub date_epoch: i64,
    pub day: Day,
    pub astro: Astro,
    pub hour: Vec<Hour>,
}

/// The day as a whole.
#[derive(Default, Debug, Clone, PartialEq)]
pub struct Day {
    pub maxtemp_c: Temperature,
    pub maxtemp_f: Temperature,
    pub mintemp_c: Temperature,
    pub mintemp_f: Temperature,
    pub avgtemp_c: Temperature,
    pub avgtemp_f: Temperature,
    pub avghumidity: i64,
    pub daily_will_it_rain: i64,
    pub daily_chance_of_rain: i64,
    pub daily_will_it_snow: i64,
    pub daily_chance_of_snow: i64,
    pub condition: Condition2,
}

/// The condition of the sky over a day.
#[derive(Default, Debug, Clone, PartialEq)]
pub struct Condition2 {
    pub text: String,
    pub icon: String,
    pub code: i64,
}

/// Sun and moon on a day.
#[derive(Default, Debug, Clone, PartialEq)]
pub struct Astro {
    pub sunrise: String,
    pub sunset: String,
    pub moonrise: String,
    pub moonset: String,
    pub moon_phase: String,
    pub moon_illumination: i64,
    pub is_moon_up: i64,
    pub is_sun_up: i64,
}

/// The sample of one hour.
#[derive(Default, Debug, Clone, PartialEq)]
pub struct Hour {
    pub time_epoch: i64,
    pub time: String,
    pub temp_c: Temperature,
    pub temp_f: Temperature,
    pub is_day: i64,
    pub condition: Condition3,
    pub wind_degree: i64,
    pub wind_dir: String,
    pub humidity: i64,
    pub cloud: i64,
    pub will_it_rain: i64,
    pub chance_of_rain: i64,
    pub will_it_snow: i64,
    pub chance_of_snow: i64,
}

/// The condition of the sky in an hour.
#[derive(Default, Debug, Clone, PartialEq)]
pub struct Condition3 {
    pub text: String,
    pub icon: String,
    pub code: i64,
}

/// The hour of day of the morning slot.
pub const MORNING: u32 = 6;

/// The hour of day of the afternoon slot.
pub const AFTERNOON: u32 = 12;

/// The hour of day of the evening slot.
pub const EVENING: u32 = 18;

/// The hour of day of the night slot.
pub const NIGHT: u32 = 0;

/// The largest number of days a forecast window may span.
pub const MAX_DAYS: usize = 7;

impl Temperature {
    /// The absolute value, in tenths of a degree.
    pub open spec fn magnitude(self) -> nat {
        if self.tenths < 0 {
            (-(self.tenths as int)) as nat
        } else {
            self.tenths as nat
        }
    }

    /// A minus sign for a temperature below zero, nothing otherwise.
    pub open spec fn sign(self) -> Seq<char> {
        if self.tenths < 0 {
            seq!['-']
        } else {
            Seq::empty()
        }
    }

    /// The temperature with exactly one decimal place: `21.0`, `-3.5`.
    pub open spec fn fixed_text(self) -> Seq<char> {
        self.sign() + decimal(self.magnitude() / 10) + seq!['.', digit_char(self.magnitude() % 10)]
    }

    /// The temperature with the decimal place left out when it is zero:
    /// `21`, `-3.5`.
    pub open spec fn short_text(self) -> Seq<char> {
        if self.magnitude() % 10 == 0 {
            self.sign() + decimal(self.magnitude() / 10)
        } else {
            self.fixed_text()
        }
    }

    /// Appends the temperature to `out`, with the decimal place always
    /// written when `fixed` is set, and only when it is not zero otherwise.
    pub fn push_to(&self, out: &mut String, fixed: bool)
        ensures
            final(out)@ == old(out)@ + (if fixed {
                self.fixed_text()
            } else {
                self.short_text()
            }),
    {
        let wide: i64 = self.tenths as i64;
        let magnitude: u64 = if wide < 0 {
            out.push('-');
            (-wide) as u64
        } else {
            wide as u64
        };
        push_decimal(out, magnitude / 10);
        let tenth: u8 = (magnitude % 10) as u8;
        if fixed || tenth != 0 {
            out.push('.');
            out.push(digit(tenth));
        }
    }

    /// The temperature with exactly one decimal place.
    pub fn to_fixed_string(&self) -> (r: String)
        ensures
            r@ == self.fixed_text(),
    {
        let mut out = String::new();
        self.push_to(&mut out, true);
        out
    }

    /// The temperature with the decimal place left out when it is zero.
    pub fn to_short_string(&self) -> (r: String)
        ensures
            r@ == self.short_text(),
    {
        let mut out = String::new();
        self.push_to(&mut out, false);
        out
    }
}

/// The text that `Debug` formatting gives for a string: the string in
/// double quotes, with the characters that need it escaped.
pub uninterp spec fn debug_text(s: Seq<char>) -> Seq<char>;

/// Formats `s` with `<str as Debug>::fmt`, through `format!`. The contract
/// only names the result: it is a function of the characters of `s`, but
/// which characters get escaped, and how, is not stated here.
#[verifier::external_body]
fn debug_string(s: &str) -> (r: String)
    ensures
        r@ == debug_text(s@),
{
    format!("{:#?}", s)
}

/// The summary of the current conditions from its four parts: one line
/// each for the place and the condition as given, then the temperature in
/// Celsius and in Fahrenheit, each with one decimal place and its unit.
pub open spec fn summary(
    name: Seq<char>,
    condition: Seq<char>,
    temp_c: Temperature,
    temp_f: Temperature,
) -> Seq<char> {
    name + seq!['\n'] + condition + seq!['\n'] + temp_c.fixed_text() + seq!['C', '\n']
        + temp_f.fixed_text() + seq!['F']
}

/// Lays out the summary of the current conditions.
pub fn summary_text(name: &str, condition: &str, temp_c: Temperature, temp_f: Temperature) -> (r:
    String)
    ensures
        r@ == summary(name@, condition@, temp_c, temp_f),
{
    let mut out = String::from_str(name);
    out.push('\n');
    out.append(condition);
    out.push('\n');
    temp_c.push_to(&mut out, true);
    out.push('C');
    out.push('\n');
    temp_f.push_to(&mut out, true);
    out.push('F');
    out
}

/// The key by which a slot is looked up: the hour in two digits, then
/// `:00`.
pub open spec fn time_key(hour: nat) -> Seq<char> {
    (if hour < 10 {
        seq!['0']
    } else {
        Seq::empty()
    }) + decimal(hour) + seq![':', '0', '0']
}

/// The time of day of a timestamp: its second word, as in
/// `2023-04-01 06:00`.
pub open spec fn time_of_day(stamp: Seq<char>) -> Option<Seq<char>> {
    nth_word(stamp, 1)
}

/// Whether the sample's time of day is exactly the key of `hour`.
pub open spec fn at_hour(sample: Hour, hour: nat) -> bool {
    time_of_day(sample.time@) == Some(time_key(hour))
}

/// The first of `hours` whose time of day is the key of `hour`.
pub open spec fn find_slot(hours: Seq<Hour>, hour: nat) -> Option<Hour>
    decreases hours.len(),
{
    if hours.len() == 0 {
        None
    } else if at_hour(hours[0], hour) {
        Some(hours[0])
    } else {
        find_slot(hours.drop_first(), hour)
    }
}

/// What `find_slot` finds is the first sample at the hour, and it finds
/// nothing exactly when no sample is at the hour.
pub proof fn lemma_find_slot(hours: Seq<Hour>, hour: nat)
    ensures
        match find_slot(hours, hour) {
            Some(sample) => exists|i: int|
                0 <= i < hours.len() && hours[i] == sample && at_hour(hours[i], hour) && forall|
                    j: int,
                | 0 <= j < i ==> !at_hour(hours[j], hour),
            None => forall|i: int| 0 <= i < hours.len() ==> !at_hour(hours[i], hour),
        },
    decreases hours.len(),
{
    if hours.len() > 0 && !at_hour(hours[0], hour) {
        let rest = hours.drop_first();
        lemma_find_slot(rest, hour);
        match find_slot(rest, hour) {
            Some(sample) => {
                let i = choose|i: int|
                    0 <= i < rest.len() && rest[i] == sample && at_hour(rest[i], hour) && forall|
                        j: int,
                    | 0 <= j < i ==> !at_hour(rest[j], hour);
                assert forall|j: int| 0 <= j < i + 1 implies !at_hour(hours[j], hour) by {
                    if j > 0 {
                        assert(hours[j] == rest[j - 1]);
                    }
                }
            },
            None => {
                assert forall|i: int| 0 <= i < hours.len() implies !at_hour(hours[i], hour) by {
                    if i > 0 {
                        assert(hours[i] == rest[i - 1]);
                    }
                }
            },
        }
    }
}

/// The keys of the four slots of the day.
pub proof fn lemma_slot_keys()
    ensures
        time_key(MORNING as nat) == "06:00"@,
        time_key(AFTERNOON as nat) == "12:00"@,
        time_key(EVENING as nat) == "18:00"@,
        time_key(NIGHT as nat) == "00:00"@,
{
    reveal_with_fuel(decimal, 2);
    reveal_strlit("06:00");
    reveal_strlit("12:00");
    reveal_strlit("18:00");
    reveal_strlit("00:00");
}

/// The sample of day `day_index` at `hour`, if the day exists and holds
/// one.
pub open spec fn day_slot(weather: Weather, day_index: int, hour: nat) -> Option<Hour> {
    if 0 <= day_index < weather.forecast.forecastday@.len() {
        find_slot(weather.forecast.forecastday@[day_index].hour@, hour)
    } else {
        None
    }
}

/// Whether a window of `days` days can be cut from a forecast of `len`
/// days.
pub open spec fn window_exists(len: nat, days: nat) -> bool {
    1 <= days <= MAX_DAYS && days <= len
}

impl Weather {
    /// The summary of the current conditions: the place, the condition
    /// and the temperature in both units.
    pub fn to_string(&self) -> (r: String)
        ensures
            r@ == summary(
                debug_text(self.location.name@),
                debug_text(self.current.condition.text@),
                self.current.temp_c,
                self.current.temp_f,
            ),
    {
        let name = debug_string(self.location.name.as_str());
        let condition = debug_string(self.current.condition.text.as_str());
        summary_text(name.as_str(), condition.as_str(), self.current.temp_c, self.current.temp_f)
    }

    /// Today's sample at 06:00.
    pub fn get_morning_data(&self) -> (r: Option<&Hour>)
        ensures
            match r {
                Some(h) => day_slot(*self, 0, MORNING as nat) == Some(*h),
                None => day_slot(*self, 0, MORNING as nat).is_none(),
            },
    {
        self.day_slot(0, MORNING)
    }

    /// Today's sample at 12:00.
    pub fn get_afternoon_data(&self) -> (r: Option<&Hour>)
        ensures
            match r {
                Some(h) => day_slot(*self, 0, AFTERNOON as nat) == Some(*h),
                None => day_slot(*self, 0, AFTERNOON as nat).is_none(),
            },
    {
        self.day_slot(0, AFTERNOON)
    }

    /// Today's sample at 18:00.
    pub fn get_evening_data(&self) -> (r: Option<&Hour>)
        ensures
            match r {
                Some(h) => day_slot(*self, 0, EVENING as nat) == Some(*h),
                None => day_slot(*self, 0, EVENING as nat).is_none(),
            },
    {
        self.day_slot(0, EVENING)
    }

    /// Today's sample at 00:00.
    pub fn get_night_data(&self) -> (r: Option<&Hour>)
        ensures
            match r {
                Some(h) => day_slot(*self, 0, NIGHT as nat) == Some(*h),
                None => day_slot(*self, 0, NIGHT as nat).is_none(),
            },
    {
        self.day_slot(0, NIGHT)
    }

    /// The sample of day `day_index` whose time of day is `hour` o'clock
    /// sharp, or `None` when the day does not exist or holds no such
    /// sample.
    pub fn day_slot(&self, day_index: usize, hour: u32) -> (r: Option<&Hour>)
        ensures
            match r {
                Some(h) => day_slot(*self, day_index as int, hour as nat) == Some(*h),
                None => day_slot(*self, day_index as int, hour as nat).is_none(),
            },
    {
        if day_index < self.forecast.forecastday.len() {
            self.get_data_for_time(&self.forecast.forecastday[day_index], hour)
        } else {
            None
        }
    }

    /// The first `days` days of the forecast, in order, when `days` is
    /// between 1 and 7 and the forecast holds that many.
    pub fn get_data_for_days(&self, days: usize) -> (r: Option<Vec<&Forecastday>>)
        ensures
            r.is_some() <==> window_exists(self.forecast.forecastday@.len(), days as nat),
            r matches Some(v) ==> v@.len() == days && forall|i: int|
                0 <= i < days ==> *v@[i] == self.forecast.forecastday@[i],
    {
        get_data_for_days(self, days)
    }

    /// The first sample of `day` whose time of day is `time` o'clock
    /// sharp. A sample whose timestamp has no time of day is passed over.
    pub fn get_data_for_time<'a>(&'a self, day: &'a Forecastday, time: u32) -> (r: Option<&'a Hour>)
        ensures
            match r {
                Some(h) => find_slot(day.hour@, time as nat) == Some(*h),
                None => find_slot(day.hour@, time as nat).is_none(),
            },
    {
        let key = self.time_str(time);
        let mut i: usize = 0;
        assert(day.hour@.skip(0) == day.hour@);
        while i < day.hour.len()
            invariant
                i <= day.hour@.len(),
                key@ == time_key(time as nat),
                find_slot(day.hour@, time as nat) == find_slot(
                    day.hour@.skip(i as int),
                    time as nat,
                ),
            decreases day.hour@.len() - i,
        {
            let hour = &day.hour[i];
            assert(day.hour@.skip(i as int).drop_first() == day.hour@.skip(i + 1));
            if let Some(word) = second_word(hour.time.as_str()) {
                if word == key {
                    return Some(hour);
                }
            }
            i = i + 1;
        }
        None
    }

    /// The key of `hour`: the hour in two digits, then `:00`.
    pub fn time_str(&self, hour: u32) -> (r: String)
        ensures
            r@ == time_key(hour as nat),
    {
        let mut out = String::new();
        if hour < 10 {
            out.push('0');
        }
        push_decimal(&mut out, hour as u64);
        out.push(':');
        out.push('0');
        out.push('0');
        out
    }
}

/// The first `days` days of the forecast, in order, when `days` is between
/// 1 and 7 and the forecast holds that many.
pub fn get_data_for_days(weather: &Weather, days: usize) -> (r: Option<Vec<&Forecastday>>)
    ensures
        r.is_some() <==> window_exists(weather.forecast.forecastday@.len(), days as nat),
        r matches Some(v) ==> v@.len() == days && forall|i: int|
            0 <= i < days ==> *v@[i] == weather.forecast.forecastday@[i],
{
    if days > 0 && days <= MAX_DAYS && days <= weather.forecast.forecastday.len() {
        let mut result: Vec<&Forecastday> = Vec::new();
        let mut i: usize = 0;
        while i < days
            invariant
                i <= days <= weather.forecast.forecastday@.len(),
                result@.len() == i,
                forall|j: int| 0 <= j < i ==> *result@[j] == weather.forecast.forecastday@[j],
            decreases days - i,
        {
            result.push(&weather.forecast.forecastday[i]);
            i = i + 1;
        }
        Some(result)
    } else {
        None
    }
}

} // verus!
