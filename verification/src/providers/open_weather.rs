//! The provider that answers one call with the current weather, the hours
//! and the days, in the units that were asked for.

use vstd::prelude::*;
use vstd::string::StringExecFns;
use crate::decimal::Decimal;
use crate::decimal::fixed2_text;
use crate::decimal::opt_micros;
use crate::decimal::thousandth_of;
use crate::errors::AppError;
use crate::providers::ascending;
use crate::providers::first_n;
use crate::providers::law_first_filtered;
use crate::providers::lemma_gather_all;
use crate::providers::gather;
use crate::providers::lemma_gather_failure_stays;
use crate::providers::lemma_gather_step;
use crate::providers::is_upcoming;
use crate::providers::lemma_filter_push;
use crate::providers::lemma_first_n_push;
use crate::providers::pointees;
use crate::providers::starts_in_time;
use crate::providers::HOURS_AHEAD;
use crate::timing::datetime_to_str;
use crate::timing::offset_of;
use crate::timing::time_text;
use crate::timing::utc_offset;
use crate::timing::TimePattern;
use crate::providers::param;
use crate::providers::address_with_path;
use crate::providers::write_address;
use crate::providers::Provider;
use crate::providers::Request;
use crate::decimal::plain_text;
use crate::weather;
use crate::weather::Coordinates;
use crate::weather::ForecastTime;
use crate::weather::UnitType;
use crate::weather::Weather;
use crate::weather::WeatherView;
use url::ParseError;

verus! {

/// Rain over the last hour, in millimetres.
#[derive(Clone, Copy, Debug, PartialEq, Eq, Structural)]
pub struct Rain {
    pub mm_h: Decimal,
}

/// One description of the sky.
#[derive(Debug)]
pub struct WeatherCondition {
    pub description: String,
}

/// The block of current conditions.
#[derive(Debug)]
pub struct CurrentWeather {
    pub sunrise: Option<i64>,
    pub sunset: Option<i64>,
    pub temp: Decimal,
    pub feels_like: Decimal,
    pub pressure: Decimal,
    pub humidity: Decimal,
    pub clouds: Decimal,
    pub uvi: Decimal,
    /// In metres.
    pub visibility: Decimal,
    pub wind_speed: Decimal,
    pub wind_deg: Decimal,
    pub rain: Option<Rain>,
    pub weather: Vec<WeatherCondition>,
}

/// One entry of the hourly series.
#[derive(Debug)]
pub struct HourlyForecast {
    /// When the hour starts, in seconds since 1970.
    pub dt: i64,
    pub temp: Decimal,
    pub feels_like: Decimal,
    pub pressure: Decimal,
    pub humidity: Decimal,
    pub uvi: Decimal,
    pub clouds: Decimal,
    /// In metres.
    pub visibility: Decimal,
    pub wind_speed: Decimal,
    pub wind_deg: Decimal,
    pub rain: Option<Rain>,
    pub weather: Vec<WeatherCondition>,
}

/// The lowest and the highest temperature of a day.
#[derive(Clone, Copy, Debug, PartialEq, Eq, Structural)]
pub struct DailyTemperature {
    pub min: Decimal,
    pub max: Decimal,
}

/// One entry of the daily series.
#[derive(Debug)]
pub struct DailyForecast {
    /// Noon of the day, in seconds since 1970.
    pub dt: i64,
    pub sunrise: Option<i64>,
    pub sunset: Option<i64>,
    pub moonrise: Option<i64>,
    pub moonset: Option<i64>,
    pub moon_phase: Decimal,
    pub temp: DailyTemperature,
    pub pressure: Decimal,
    pub humidity: Decimal,
    pub wind_speed: Decimal,
    pub clouds: Decimal,
    pub uvi: Decimal,
    pub rain: Option<Decimal>,
    pub weather: Vec<WeatherCondition>,
}

/// Everything that one call returns.
#[derive(Debug)]
pub struct WeatherData {
    /// How far the place's clock is ahead of UTC, in seconds.
    pub timezone_offset: u32,
    pub current: CurrentWeather,
    pub hourly: Vec<HourlyForecast>,
    pub daily: Vec<DailyForecast>,
}

/// The description that stands for a list of them: the first, or a
/// fixed text where the list is empty.
pub open spec fn condition_text(weather: Seq<WeatherCondition>) -> Seq<char> {
    if weather.len() > 0 {
        weather[0].description@
    } else {
        "No data"@
    }
}

/// The rain that was reported, if any was: none reported is no amount, not
/// an amount of zero.
pub open spec fn rain_amount(rain: Option<Rain>) -> Option<int> {
    match rain {
        Some(r) => Some(r.mm_h@),
        None => None,
    }
}

/// The description that stands for a list of them.
pub fn first_condition(weather: &Vec<WeatherCondition>) -> (s: String)
    ensures
        s@ == condition_text(weather@),
{
    if weather.len() > 0 {
        weather[0].description.clone()
    } else {
        String::from_str("No data")
    }
}

/// The rain that was reported, if any was.
pub fn reported_rain(rain: Option<Rain>) -> (r: Option<Decimal>)
    ensures
        opt_micros(r) == rain_amount(rain),
{
    match rain {
        Some(r) => Some(r.mm_h),
        None => None,
    }
}

/// The current weather that the block `c` stands for, once its two times
/// are written. The numbers are kept as the provider gave them; only the
/// visibility goes from metres to kilometres.
pub open spec fn current_view(
    c: CurrentWeather,
    sunrise: Seq<char>,
    sunset: Seq<char>,
    unit: UnitType,
) -> weather::CurrentWeatherView {
    weather::CurrentWeatherView {
        temp: c.temp@,
        feels_like: c.feels_like@,
        visibility: thousandth_of(c.visibility@),
        clouds: c.clouds@,
        humidity: c.humidity@,
        pressure: c.pressure@,
        wind_speed: c.wind_speed@,
        wind_deg: c.wind_deg@,
        uvi: c.uvi@,
        sunrise: Some(sunrise),
        sunset: Some(sunset),
        condition: condition_text(c.weather@),
        precip: rain_amount(c.rain),
        unit,
    }
}

/// The current weather that the block `c` stands for.
pub fn assemble_current(c: &CurrentWeather, sunrise: String, sunset: String, unit: UnitType) -> (r:
    weather::CurrentWeather)
    ensures
        r@ == current_view(*c, sunrise@, sunset@, unit),
{
    weather::CurrentWeather {
        temp: c.temp,
        feels_like: c.feels_like,
        visibility: c.visibility.thousandth(),
        clouds: c.clouds,
        humidity: c.humidity,
        pressure: c.pressure,
        wind_speed: c.wind_speed,
        wind_deg: c.wind_deg,
        uvi: c.uvi,
        sunrise: Some(sunrise),
        sunset: Some(sunset),
        condition: first_condition(&c.weather),
        precip: reported_rain(c.rain),
        unit,
    }
}

/// The hour that the entry `h` stands for, once its time is written.
pub open spec fn hour_view(h: HourlyForecast, time: Seq<char>, unit: UnitType) -> weather::HourWeatherView {
    weather::HourWeatherView {
        time,
        temp: h.temp@,
        feels_like: h.feels_like@,
        visibility: thousandth_of(h.visibility@),
        clouds: h.clouds@,
        humidity: h.humidity@,
        pressure: h.pressure@,
        wind_speed: h.wind_speed@,
        wind_deg: h.wind_deg@,
        uvi: h.uvi@,
        condition: condition_text(h.weather@),
        precip: rain_amount(h.rain),
        unit,
    }
}

/// The hour that the entry `h` stands for.
pub fn assemble_hour(h: &HourlyForecast, time: String, unit: UnitType) -> (r: weather::HourWeather)
    ensures
        r@ == hour_view(*h, time@, unit),
{
    weather::HourWeather {
        time,
        temp: h.temp,
        feels_like: h.feels_like,
        visibility: h.visibility.thousandth(),
        clouds: h.clouds,
        humidity: h.humidity,
        pressure: h.pressure,
        wind_speed: h.wind_speed,
        wind_deg: h.wind_deg,
        uvi: h.uvi,
        condition: first_condition(&h.weather),
        precip: reported_rain(h.rain),
        unit,
    }
}

/// The five times of a day, written.
pub struct DayTimes {
    pub date: String,
    pub sunrise: String,
    pub sunset: String,
    pub moonrise: String,
    pub moonset: String,
}

/// What a `DayTimes` holds.
pub struct DayTimesView {
    pub date: Seq<char>,
    pub sunrise: Seq<char>,
    pub sunset: Seq<char>,
    pub moonrise: Seq<char>,
    pub moonset: Seq<char>,
}

impl View for DayTimes {
    type V = DayTimesView;

    open spec fn view(&self) -> DayTimesView {
        DayTimesView {
            date: self.date@,
            sunrise: self.sunrise@,
            sunset: self.sunset@,
            moonrise: self.moonrise@,
            moonset: self.moonset@,
        }
    }
}

/// The day that the entry `d` stands for, once its times are written. The
/// provider has no average temperature and no visibility for a day.
pub open spec fn day_view(d: DailyForecast, times: DayTimesView, unit: UnitType) -> weather::DailyWeatherView {
    weather::DailyWeatherView {
        date: times.date,
        min_temp: d.temp.min@,
        max_temp: d.temp.max@,
        avg_temp: None,
        visibility: None,
        humidity: d.humidity@,
        pressure: Some(d.pressure@),
        wind_speed: d.wind_speed@,
        uvi: d.uvi@,
        clouds: Some(d.clouds@),
        condition: condition_text(d.weather@),
        precip: opt_micros(d.rain),
        sunrise: Some(times.sunrise),
        sunset: Some(times.sunset),
        moonrise: Some(times.moonrise),
        moonset: Some(times.moonset),
        moon_phase: Some(fixed2_text(d.moon_phase@)),
        unit,
    }
}

/// The day that the entry `d` stands for.
pub fn assemble_day(d: &DailyForecast, times: DayTimes, unit: UnitType) -> (r: weather::DailyWeather)
    ensures
        r@ == day_view(*d, times@, unit),
{
    weather::DailyWeather {
        date: times.date,
        min_temp: d.temp.min,
        max_temp: d.temp.max,
        avg_temp: None,
        visibility: None,
        humidity: d.humidity,
        pressure: Some(d.pressure),
        wind_speed: d.wind_speed,
        uvi: d.uvi,
        clouds: Some(d.clouds),
        condition: first_condition(&d.weather),
        precip: d.rain,
        sunrise: Some(times.sunrise),
        sunset: Some(times.sunset),
        moonrise: Some(times.moonrise),
        moonset: Some(times.moonset),
        moon_phase: Some(d.moon_phase.to_fixed2()),
        unit,
    }
}

/// The current weather of the answer, or the first time that cannot be
/// told: sunrise comes before sunset.
pub open spec fn current_outcome(data: WeatherData, unit: UnitType) -> Result<
    weather::CurrentWeatherView,
    Seq<char>,
> {
    let offset = offset_of(data.timezone_offset);
    match time_text(data.current.sunrise, offset, TimePattern::Clock) {
        Err(e) => Err(e),
        Ok(sunrise) => match time_text(data.current.sunset, offset, TimePattern::Clock) {
            Err(e) => Err(e),
            Ok(sunset) => Ok(current_view(data.current, sunrise, sunset, unit)),
        },
    }
}

/// One hour of the answer, or why its time cannot be told.
pub open spec fn hour_outcome(h: HourlyForecast, offset: Option<i32>, unit: UnitType) -> Result<
    weather::HourWeatherView,
    Seq<char>,
> {
    match time_text(Some(h.dt), offset, TimePattern::DateAndClock) {
        Err(e) => Err(e),
        Ok(time) => Ok(hour_view(h, time, unit)),
    }
}

/// The five times of a day, or the first that cannot be told: the date,
/// then sunrise, sunset, moonrise and moonset.
pub open spec fn day_times(d: DailyForecast, offset: Option<i32>) -> Result<DayTimesView, Seq<char>> {
    match time_text(Some(d.dt), offset, TimePattern::Date) {
        Err(e) => Err(e),
        Ok(date) => match time_text(d.sunrise, offset, TimePattern::Clock) {
            Err(e) => Err(e),
            Ok(sunrise) => match time_text(d.sunset, offset, TimePattern::Clock) {
                Err(e) => Err(e),
                Ok(sunset) => match time_text(d.moonrise, offset, TimePattern::Clock) {
                    Err(e) => Err(e),
                    Ok(moonrise) => match time_text(d.moonset, offset, TimePattern::Clock) {
                        Err(e) => Err(e),
                        Ok(moonset) => Ok(
                            DayTimesView { date, sunrise, sunset, moonrise, moonset },
                        ),
                    },
                },
            },
        },
    }
}

/// One day of the answer, or why one of its times cannot be told.
pub open spec fn day_outcome(d: DailyForecast, offset: Option<i32>, unit: UnitType) -> Result<
    weather::DailyWeatherView,
    Seq<char>,
> {
    match day_times(d, offset) {
        Err(e) => Err(e),
        Ok(times) => Ok(day_view(d, times, unit)),
    }
}

/// `hour_outcome` for a given offset and unit.
pub open spec fn hour_outcomes(offset: Option<i32>, unit: UnitType) -> spec_fn(
    HourlyForecast,
) -> Result<weather::HourWeatherView, Seq<char>> {
    |h: HourlyForecast| hour_outcome(h, offset, unit)
}

/// `day_outcome` for a given offset and unit.
pub open spec fn day_outcomes(offset: Option<i32>, unit: UnitType) -> spec_fn(
    DailyForecast,
) -> Result<weather::DailyWeatherView, Seq<char>> {
    |d: DailyForecast| day_outcome(d, offset, unit)
}

/// Whether an entry of the hourly series still counts at `now`.
pub open spec fn still_counts(now: int) -> spec_fn(HourlyForecast) -> bool {
    |h: HourlyForecast| is_upcoming(h.dt as int, now)
}

/// The entries that a forecast by the hour is made of: those that still
/// count at `now`, in the order they came in, and no more than 24 of them.
pub open spec fn upcoming_hours(hourly: Seq<HourlyForecast>, now: int) -> Seq<HourlyForecast> {
    first_n(hourly.filter(still_counts(now)), 24)
}

/// The hours of the answer as of `now`, or the first failure.
pub open spec fn today_outcome(data: WeatherData, now: int, unit: UnitType) -> Result<
    Seq<weather::HourWeatherView>,
    Seq<char>,
> {
    gather(
        upcoming_hours(data.hourly@, now),
        hour_outcomes(offset_of(data.timezone_offset), unit),
    )
}

/// The first `n_days` days of the answer, or all where it has fewer; or the
/// first failure.
pub open spec fn days_outcome(data: WeatherData, n_days: nat, unit: UnitType) -> Result<
    Seq<weather::DailyWeatherView>,
    Seq<char>,
> {
    gather(first_n(data.daily@, n_days), day_outcomes(offset_of(data.timezone_offset), unit))
}

/// Whether `r` is the outcome `expected`: the same weather, or a failure to
/// tell a time with the same detail.
pub open spec fn is_current_outcome(
    r: Result<weather::CurrentWeather, AppError>,
    expected: Result<weather::CurrentWeatherView, Seq<char>>,
) -> bool {
    match expected {
        Ok(view) => r matches Ok(w) && w@ == view,
        Err(detail) => r matches Err(AppError::TimeParse(d)) && d@ == detail,
    }
}

/// Whether `r` is the outcome `expected`: the same hours, or a failure to
/// tell a time with the same detail.
pub open spec fn is_hours_outcome(
    r: Result<Vec<weather::HourWeather>, AppError>,
    expected: Result<Seq<weather::HourWeatherView>, Seq<char>>,
) -> bool {
    match expected {
        Ok(views) => r matches Ok(hours) && hours.deep_view() == views,
        Err(detail) => r matches Err(AppError::TimeParse(d)) && d@ == detail,
    }
}

/// Whether `r` is the outcome `expected`: the same days, or a failure to
/// tell a time with the same detail.
pub open spec fn is_days_outcome(
    r: Result<Vec<weather::DailyWeather>, AppError>,
    expected: Result<Seq<weather::DailyWeatherView>, Seq<char>>,
) -> bool {
    match expected {
        Ok(views) => r matches Ok(days) && days.deep_view() == views,
        Err(detail) => r matches Err(AppError::TimeParse(d)) && d@ == detail,
    }
}

/// Whether `r` is the outcome `expected`: the same times, or a failure with
/// the same detail.
pub open spec fn is_times_outcome(
    r: Result<DayTimes, AppError>,
    expected: Result<DayTimesView, Seq<char>>,
) -> bool {
    match expected {
        Ok(view) => r matches Ok(times) && times@ == view,
        Err(detail) => r matches Err(AppError::TimeParse(d)) && d@ == detail,
    }
}

/// Writes the five times of a day.
pub fn write_day_times(d: &DailyForecast, offset: Option<i32>) -> (r: Result<DayTimes, AppError>)
    ensures
        is_times_outcome(r, day_times(*d, offset)),
{
    let date = match datetime_to_str(Some(d.dt), offset, TimePattern::Date) {
        Ok(text) => text,
        Err(e) => {
            return Err(e);
        },
    };
    let sunrise = match datetime_to_str(d.sunrise, offset, TimePattern::Clock) {
        Ok(text) => text,
        Err(e) => {
            return Err(e);
        },
    };
    let sunset = match datetime_to_str(d.sunset, offset, TimePattern::Clock) {
        Ok(text) => text,
        Err(e) => {
            return Err(e);
        },
    };
    let moonrise = match datetime_to_str(d.moonrise, offset, TimePattern::Clock) {
        Ok(text) => text,
        Err(e) => {
            return Err(e);
        },
    };
    let moonset = match datetime_to_str(d.moonset, offset, TimePattern::Clock) {
        Ok(text) => text,
        Err(e) => {
            return Err(e);
        },
    };
    Ok(DayTimes { date, sunrise, sunset, moonrise, moonset })
}

/// The entries of the hourly series that a forecast as of `now` is made of.
pub fn select_upcoming<'a>(hourly: &'a Vec<HourlyForecast>, now: i64) -> (sel: Vec<
    &'a HourlyForecast,
>)
    ensures
        pointees(sel@) == upcoming_hours(hourly@, now as int),
{
    let mut sel: Vec<&'a HourlyForecast> = Vec::new();
    let mut i: usize = 0;
    let ghost pred = still_counts(now as int);
    proof {
        reveal(Seq::filter);
        assert(hourly@.take(0) =~= Seq::<HourlyForecast>::empty());
        assert(pointees(sel@) =~= first_n(hourly@.take(0).filter(pred), 24));
    }
    while i < hourly.len()
        invariant
            i <= hourly.len(),
            pred == still_counts(now as int),
            pointees(sel@) == first_n(hourly@.take(i as int).filter(pred), 24),
        decreases hourly.len() - i,
    {
        let h = &hourly[i];
        proof {
            let before = hourly@.take(i as int);
            assert(hourly@.take(i + 1) =~= before.push(*h));
            lemma_filter_push(before, *h, pred);
            lemma_first_n_push(before.filter(pred), *h, 24);
        }
        if starts_in_time(h.dt, now) && sel.len() < HOURS_AHEAD {
            let ghost old_sel = sel@;
            sel.push(h);
            assert(pointees(sel@) =~= pointees(old_sel).push(*h));
        }
        i += 1;
    }
    assert(hourly@.take(i as int) =~= hourly@);
    sel
}

impl WeatherData {
    /// The current weather, with sunrise and sunset as the place's clock
    /// shows them.
    pub fn parse_to_current(self, unit: UnitType) -> (r: Result<weather::CurrentWeather, AppError>)
        ensures
            is_current_outcome(r, current_outcome(self, unit)),
    {
        let offset = utc_offset(self.timezone_offset);
        let sunrise = match datetime_to_str(self.current.sunrise, offset, TimePattern::Clock) {
            Ok(text) => text,
            Err(e) => {
                return Err(e);
            },
        };
        let sunset = match datetime_to_str(self.current.sunset, offset, TimePattern::Clock) {
            Ok(text) => text,
            Err(e) => {
                return Err(e);
            },
        };
        Ok(assemble_current(&self.current, sunrise, sunset, unit))
    }

    /// The hours from the current one on, 24 at most, as of `now` in seconds
    /// since 1970.
    pub fn parse_to_today(self, now: i64, unit: UnitType) -> (r: Result<
        Vec<weather::HourWeather>,
        AppError,
    >)
        ensures
            is_hours_outcome(r, today_outcome(self, now as int, unit)),
    {
        let offset = utc_offset(self.timezone_offset);
        let sel = select_upcoming(&self.hourly, now);
        let ghost items = pointees(sel@);
        let ghost f = hour_outcomes(offset, unit);
        let mut out: Vec<weather::HourWeather> = Vec::new();
        let mut j: usize = 0;
        proof {
            assert(items.take(0) =~= Seq::<HourlyForecast>::empty());
            assert(out.deep_view() =~= Seq::<weather::HourWeatherView>::empty());
        }
        while j < sel.len()
            invariant
                j <= sel.len(),
                items == pointees(sel@),
                items == upcoming_hours(self.hourly@, now as int),
                f == hour_outcomes(offset, unit),
                offset == offset_of(self.timezone_offset),
                gather(items.take(j as int), f) == Ok::<Seq<weather::HourWeatherView>, Seq<char>>(
                    out.deep_view(),
                ),
            decreases sel.len() - j,
        {
            let h = sel[j];
            proof {
                lemma_gather_step(items, f, j as int);
                assert(items[j as int] == *h);
            }
            match datetime_to_str(Some(h.dt), offset, TimePattern::DateAndClock) {
                Err(e) => {
                    proof {
                        lemma_gather_failure_stays(items, f, j + 1);
                    }
                    return Err(e);
                },
                Ok(time) => {
                    let ghost done = out.deep_view();
                    let hour = assemble_hour(h, time, unit);
                    out.push(hour);
                    assert(out.deep_view() =~= done.push(hour@));
                },
            }
            j += 1;
        }
        assert(items.take(j as int) =~= items);
        Ok(out)
    }

    /// The first `n_days` days, or as many as the answer has.
    pub fn parse_to_days(self, n_days: usize, unit: UnitType) -> (r: Result<
        Vec<weather::DailyWeather>,
        AppError,
    >)
        ensures
            is_days_outcome(r, days_outcome(self, n_days as nat, unit)),
    {
        let offset = utc_offset(self.timezone_offset);
        let count: usize = if self.daily.len() <= n_days {
            self.daily.len()
        } else {
            n_days
        };
        let ghost items = first_n(self.daily@, n_days as nat);
        let ghost f = day_outcomes(offset, unit);
        let mut out: Vec<weather::DailyWeather> = Vec::new();
        let mut j: usize = 0;
        proof {
            assert(items.take(0) =~= Seq::<DailyForecast>::empty());
            assert(out.deep_view() =~= Seq::<weather::DailyWeatherView>::empty());
        }
        while j < count
            invariant
                j <= count,
                count == items.len(),
                count <= self.daily.len(),
                items == first_n(self.daily@, n_days as nat),
                f == day_outcomes(offset, unit),
                offset == offset_of(self.timezone_offset),
                gather(items.take(j as int), f) == Ok::<Seq<weather::DailyWeatherView>, Seq<char>>(
                    out.deep_view(),
                ),
            decreases count - j,
        {
            let d = &self.daily[j];
            proof {
                lemma_gather_step(items, f, j as int);
                assert(items[j as int] == *d);
            }
            match write_day_times(d, offset) {
                Err(e) => {
                    proof {
                        lemma_gather_failure_stays(items, f, j + 1);
                    }
                    return Err(e);
                },
                Ok(times) => {
                    let ghost done = out.deep_view();
                    let day = assemble_day(d, times, unit);
                    out.push(day);
                    assert(out.deep_view() =~= done.push(day@));
                },
            }
            j += 1;
        }
        assert(items.take(j as int) =~= items);
        Ok(out)
    }
}

/// Where the provider answers.
pub open spec fn base_address() -> Seq<char> {
    "https://api.openweathermap.org"@
}

/// The name of a system of units as the provider takes it.
pub open spec fn units_text(unit: UnitType) -> Seq<char> {
    match unit {
        UnitType::Metric => "metric"@,
        UnitType::Imperial => "imperial"@,
    }
}

/// The parameters of a query: the position, the key, no forecast by the
/// minute, and the units that every number of the answer is to come in.
pub open spec fn query_of(coord: Coordinates, app_id: Seq<char>, unit: UnitType) -> Seq<
    (Seq<char>, Seq<char>),
> {
    seq![
        ("lat"@, plain_text(coord.lat@)),
        ("lon"@, plain_text(coord.lon@)),
        ("appid"@, app_id),
        ("exclude"@, "minutely"@),
        ("units"@, units_text(unit)),
    ]
}

/// The forecast that an answer holds for a time range as of `now`, or the
/// first failure to tell a time.
pub open spec fn forecast_outcome(
    data: WeatherData,
    now: int,
    time: ForecastTime,
    unit: UnitType,
) -> Result<WeatherView, Seq<char>> {
    match time {
        ForecastTime::Now => match current_outcome(data, unit) {
            Ok(w) => Ok(WeatherView::Current(w)),
            Err(e) => Err(e),
        },
        ForecastTime::Hours24 => match today_outcome(data, now, unit) {
            Ok(hours) => Ok(WeatherView::Today(hours)),
            Err(e) => Err(e),
        },
        ForecastTime::Days3 => match days_outcome(data, 3, unit) {
            Ok(days) => Ok(WeatherView::Daily(days)),
            Err(e) => Err(e),
        },
        ForecastTime::Days5 => match days_outcome(data, 5, unit) {
            Ok(days) => Ok(WeatherView::Daily(days)),
            Err(e) => Err(e),
        },
    }
}

/// The path of the call that answers with current weather, hours and days.
pub open spec fn forecast_path() -> Seq<char> {
    "/data/3.0/onecall"@
}

/// The address of that call, if the provider's address is a URL.
pub open spec fn endpoint() -> Option<Seq<char>> {
    address_with_path(base_address(), forecast_path())
}

/// The provider: the address that it is asked at, and the key to it.
#[derive(Debug)]
pub struct OpenWeather {
    pub address: String,
    pub app_id: String,
}

impl OpenWeather {
    /// The provider with the key `app_id`, given what came of writing its
    /// address: the provider at that address, or the failure to parse.
    pub fn with_address(written: Result<String, ParseError>, app_id: String) -> (r: Result<
        OpenWeather,
        AppError,
    >)
        ensures
            match written {
                Ok(address) => r matches Ok(provider) && provider.address@ == address@
                    && provider.app_id@ == app_id@,
                Err(e) => r matches Err(AppError::UrlParse(told)) && told == e,
            },
    {
        match written {
            Ok(address) => Ok(OpenWeather { address, app_id }),
            Err(e) => Err(AppError::UrlParse(e)),
        }
    }

    /// The provider with the key `app_id`, asked at the path of the one
    /// call under the provider's address. It fails where that is no URL,
    /// and only there.
    pub fn new(app_id: String) -> (r: Result<OpenWeather, AppError>)
        ensures
            r is Ok <==> endpoint() is Some,
            r matches Ok(provider) ==> Some(provider.address@) == endpoint() && provider.app_id@
                == app_id@,
            r matches Err(e) ==> e is UrlParse,
    {
        proof {
            reveal_strlit("https://api.openweathermap.org");
            reveal_strlit("/data/3.0/onecall");
        }
        OpenWeather::with_address(
            write_address("https://api.openweathermap.org", "/data/3.0/onecall"),
            app_id,
        )
    }
}

impl Provider for OpenWeather {
    type Answer = WeatherData;

    open spec fn address(&self) -> Seq<char> {
        self.address@
    }

    open spec fn query(&self, coord: Coordinates, time: ForecastTime, unit: UnitType) -> Seq<
        (Seq<char>, Seq<char>),
    > {
        query_of(coord, self.app_id@, unit)
    }

    open spec fn outcome(data: WeatherData, now: int, time: ForecastTime, unit: UnitType) -> Result<
        WeatherView,
        Seq<char>,
    > {
        forecast_outcome(data, now, time, unit)
    }

    /// One call answers every time range, in the units of `unit`.
    fn request(&self, coord: Coordinates, time: ForecastTime, unit: UnitType) -> (r: Request)
        ensures
            Some(self.address@) == endpoint() ==> Some(r.url@) == address_with_path(
                base_address(),
                "/data/3.0/onecall"@,
            ),
    {
        let url = self.address.clone();
        let units = match unit {
            UnitType::Metric => "metric",
            UnitType::Imperial => "imperial",
        };
        let mut query: Vec<(String, String)> = Vec::new();
        query.push(param("lat", coord.lat.to_plain()));
        query.push(param("lon", coord.lon.to_plain()));
        query.push(param("appid", self.app_id.clone()));
        query.push(param("exclude", String::from_str("minutely")));
        query.push(param("units", String::from_str(units)));
        assert(query.deep_view() =~= query_of(coord, self.app_id@, unit));
        Request { url, query }
    }

    fn interpret_at(
        &self,
        data: WeatherData,
        now: i64,
        time: ForecastTime,
        unit: UnitType,
    ) -> (r: Result<Weather, AppError>) {
        match time {
            ForecastTime::Now => match data.parse_to_current(unit) {
                Ok(w) => Ok(Weather::Current(w)),
                Err(e) => Err(e),
            },
            ForecastTime::Hours24 => match data.parse_to_today(now, unit) {
                Ok(hours) => Ok(Weather::Today(hours)),
                Err(e) => Err(e),
            },
            ForecastTime::Days3 => match data.parse_to_days(3, unit) {
                Ok(days) => Ok(Weather::Daily(days)),
                Err(e) => Err(e),
            },
            ForecastTime::Days5 => match data.parse_to_days(5, unit) {
                Ok(days) => Ok(Weather::Daily(days)),
                Err(e) => Err(e),
            },
        }
    }
}

/// When an hour starts.
pub open spec fn start_of() -> spec_fn(HourlyForecast) -> int {
    |h: HourlyForecast| h.dt as int
}

/// The entries that a forecast by the hour is made of are never more than
/// 24, and exactly 24 where at least 24 still count. Each started less than
/// an hour before `now` or lies ahead, and stood in the series. Where the
/// series is in the order of time, so are they. Where no time fails, the
/// forecast has an hour for each, read from the entry in its place.
pub proof fn law_upcoming_hours(data: WeatherData, now: int, unit: UnitType)
    ensures
        upcoming_hours(data.hourly@, now).len() <= 24,
        data.hourly@.filter(still_counts(now)).len() >= 24 ==> upcoming_hours(
            data.hourly@,
            now,
        ).len() == 24,
        forall|i: int|
            0 <= i < upcoming_hours(data.hourly@, now).len() ==> (#[trigger] upcoming_hours(
                data.hourly@,
                now,
            )[i]).dt - now > -3_600,
        forall|i: int|
            0 <= i < upcoming_hours(data.hourly@, now).len() ==> data.hourly@.contains(
                #[trigger] upcoming_hours(data.hourly@, now)[i],
            ),
        ascending(data.hourly@, start_of()) ==> ascending(
            upcoming_hours(data.hourly@, now),
            start_of(),
        ),
        today_outcome(data, now, unit) matches Ok(hours) ==> hours.len() == upcoming_hours(
            data.hourly@,
            now,
        ).len() && forall|i: int|
            0 <= i < hours.len() ==> hour_outcome(
                #[trigger] upcoming_hours(data.hourly@, now)[i],
                offset_of(data.timezone_offset),
                unit,
            ) == Ok::<weather::HourWeatherView, Seq<char>>(hours[i]),
{
    law_first_filtered(data.hourly@, still_counts(now), start_of(), 24);
    lemma_gather_all(
        upcoming_hours(data.hourly@, now),
        hour_outcomes(offset_of(data.timezone_offset), unit),
    );
}

/// Where no time fails, a forecast by the day has as many days as were
/// asked for, or as many as the answer has where it has fewer: that is no
/// failure. Each day of the forecast is read from the day in its place.
pub proof fn law_days_as_received(data: WeatherData, n_days: nat, unit: UnitType)
    ensures
        days_outcome(data, n_days, unit) matches Ok(days) ==> days.len() == (if data.daily@.len()
            <= n_days {
            data.daily@.len()
        } else {
            n_days
        }) && forall|i: int|
            0 <= i < days.len() ==> day_outcome(
                #[trigger] data.daily@[i],
                offset_of(data.timezone_offset),
                unit,
            ) == Ok::<weather::DailyWeatherView, Seq<char>>(days[i]),
{
    let items = first_n(data.daily@, n_days);
    lemma_gather_all(items, day_outcomes(offset_of(data.timezone_offset), unit));
    if let Ok(days) = days_outcome(data, n_days, unit) {
        assert forall|i: int| 0 <= i < days.len() implies day_outcome(
            #[trigger] data.daily@[i],
            offset_of(data.timezone_offset),
            unit,
        ) == Ok::<weather::DailyWeatherView, Seq<char>>(days[i]) by {
            assert(items[i] == data.daily@[i]);
        }
    }
}

/// Rain that was not reported is no amount in the forecast, and rain that
/// was reported is the amount reported: an absent amount is never taken for
/// none fallen.
pub proof fn law_missing_rain_is_absent(
    h: HourlyForecast,
    c: CurrentWeather,
    d: DailyForecast,
    time: Seq<char>,
    times: DayTimesView,
    unit: UnitType,
)
    ensures
        h.rain is None <==> hour_view(h, time, unit).precip is None,
        h.rain matches Some(rain) ==> hour_view(h, time, unit).precip == Some(rain.mm_h@),
        c.rain is None <==> current_view(c, time, time, unit).precip is None,
        c.rain matches Some(rain) ==> current_view(c, time, time, unit).precip == Some(rain.mm_h@),
        d.rain is None <==> day_view(d, times, unit).precip is None,
        d.rain matches Some(amount) ==> day_view(d, times, unit).precip == Some(amount@),
        hour_view(h, time, unit).precip is None ==> hour_view(h, time, unit).precip != Some(0int),
{
}

} // verus!
