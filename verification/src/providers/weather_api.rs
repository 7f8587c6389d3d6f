//! The provider that answers with every measurement in both systems of
//! units, side by side.

use vstd::prelude::*;
use crate::decimal::kph_as_mps;
use crate::decimal::Decimal;
use crate::providers::ascending;
use crate::providers::first_n;
use crate::providers::law_first_filtered;
use crate::providers::is_upcoming;
use crate::providers::lemma_filter_push;
use crate::providers::lemma_first_n_push;
use crate::providers::pointees;
use crate::providers::starts_in_time;
use crate::providers::HOURS_AHEAD;
use crate::decimal::digits;
use crate::decimal::plain_text;
use crate::decimal::usize_to_string;
use crate::errors::AppError;
use crate::providers::param;
use crate::providers::address_with_path;
use crate::providers::write_address;
use crate::providers::Provider;
use crate::providers::Request;
use crate::weather;
use crate::weather::Coordinates;
use crate::weather::ForecastTime;
use crate::weather::UnitType;
use crate::weather::Weather;
use crate::weather::WeatherView;
use url::ParseError;
use vstd::string::StringExecFns;

verus! {

/// A description of the sky.
#[derive(Debug)]
pub struct Condition {
    pub text: String,
}

/// The block of current conditions.
#[derive(Debug)]
pub struct Current {
    pub temp_c: Decimal,
    pub temp_f: Decimal,
    pub condition: Condition,
    pub wind_mph: Decimal,
    pub wind_kph: Decimal,
    pub wind_degree: u32,
    pub pressure_mb: Decimal,
    pub precip_mm: Decimal,
    pub precip_in: Decimal,
    pub humidity: Decimal,
    pub cloud: Decimal,
    pub feelslike_c: Decimal,
    pub feelslike_f: Decimal,
    pub vis_km: Decimal,
    pub vis_miles: Decimal,
    pub uv: Decimal,
}

/// The summary of a day.
#[derive(Debug)]
pub struct Day {
    pub maxtemp_c: Decimal,
    pub maxtemp_f: Decimal,
    pub mintemp_c: Decimal,
    pub mintemp_f: Decimal,
    pub maxwind_mph: Decimal,
    pub maxwind_kph: Decimal,
    pub totalprecip_mm: Decimal,
    pub totalprecip_in: Decimal,
    pub avghumidity: Decimal,
    pub condition: Condition,
    pub uv: Decimal,
}

/// Sun and moon of a day, as the place's clock shows them.
#[derive(Debug)]
pub struct Astro {
    pub sunrise: String,
    pub sunset: String,
    pub moonrise: String,
    pub moonset: String,
    pub moon_phase: String,
}

/// One hour of a day.
#[derive(Debug)]
pub struct Hour {
    /// When the hour starts, in seconds since 1970.
    pub time_epoch: i64,
    /// When the hour starts, as the place's clock shows it.
    pub time: String,
    pub temp_c: Decimal,
    pub temp_f: Decimal,
    pub condition: Condition,
    pub wind_mph: Decimal,
    pub wind_kph: Decimal,
    pub wind_degree: u32,
    pub pressure_mb: Decimal,
    pub precip_mm: Decimal,
    pub precip_in: Decimal,
    pub humidity: Decimal,
    pub cloud: Decimal,
    pub feelslike_c: Decimal,
    pub feelslike_f: Decimal,
    pub vis_km: Decimal,
    pub vis_miles: Decimal,
    pub uv: Decimal,
}

/// One day of the forecast, with its hours.
#[derive(Debug)]
pub struct ForecastDay {
    pub date: String,
    pub day: Day,
    pub astro: Astro,
    pub hour: Vec<Hour>,
}

/// The days of the forecast.
#[derive(Debug)]
pub struct Forecast {
    pub forecastday: Vec<ForecastDay>,
}

/// Everything that one call returns.
#[derive(Debug)]
pub struct WeatherData {
    pub current: Current,
    pub forecast: Forecast,
}

/// Of a measurement given in both systems, the one in `unit`. Nothing is
/// converted: each number is taken as the provider gave it.
pub open spec fn pick(unit: UnitType, metric: int, imperial: int) -> int {
    match unit {
        UnitType::Metric => metric,
        UnitType::Imperial => imperial,
    }
}

/// The wind speed in `unit`: miles an hour as given, or metres a second,
/// which the provider does not give, from kilometres an hour.
pub open spec fn wind_speed(unit: UnitType, kph: int, mph: int) -> int {
    match unit {
        UnitType::Metric => kph_as_mps(kph),
        UnitType::Imperial => mph,
    }
}

/// Of a measurement given in both systems, the one in `unit`.
pub fn pick_for(unit: UnitType, metric: Decimal, imperial: Decimal) -> (r: Decimal)
    ensures
        r@ == pick(unit, metric@, imperial@),
{
    match unit {
        UnitType::Metric => metric,
        UnitType::Imperial => imperial,
    }
}

/// The wind speed in `unit`.
pub fn wind_speed_for(unit: UnitType, kph: Decimal, mph: Decimal) -> (r: Decimal)
    ensures
        r@ == wind_speed(unit, kph@, mph@),
{
    match unit {
        UnitType::Metric => kph.kph_to_mps(),
        UnitType::Imperial => mph,
    }
}

/// Sunrise of the first day of the forecast, if it has a day.
pub open spec fn first_sunrise(days: Seq<ForecastDay>) -> Option<Seq<char>> {
    if days.len() > 0 {
        Some(days[0].astro.sunrise@)
    } else {
        None
    }
}

/// Sunset of the first day of the forecast, if it has a day.
pub open spec fn first_sunset(days: Seq<ForecastDay>) -> Option<Seq<char>> {
    if days.len() > 0 {
        Some(days[0].astro.sunset@)
    } else {
        None
    }
}

/// The current weather that the answer stands for in `unit`.
pub open spec fn current_view(data: WeatherData, unit: UnitType) -> weather::CurrentWeatherView {
    let c = data.current;
    weather::CurrentWeatherView {
        temp: pick(unit, c.temp_c@, c.temp_f@),
        feels_like: pick(unit, c.feelslike_c@, c.feelslike_f@),
        visibility: pick(unit, c.vis_km@, c.vis_miles@),
        clouds: c.cloud@,
        humidity: c.humidity@,
        pressure: c.pressure_mb@,
        wind_speed: wind_speed(unit, c.wind_kph@, c.wind_mph@),
        wind_deg: c.wind_degree * 1_000_000,
        uvi: c.uv@,
        sunrise: first_sunrise(data.forecast.forecastday@),
        sunset: first_sunset(data.forecast.forecastday@),
        condition: c.condition.text@,
        precip: Some(pick(unit, c.precip_mm@, c.precip_in@)),
        unit,
    }
}

/// The hour that the entry `h` stands for in `unit`.
pub open spec fn hour_view(h: Hour, unit: UnitType) -> weather::HourWeatherView {
    weather::HourWeatherView {
        time: h.time@,
        temp: pick(unit, h.temp_c@, h.temp_f@),
        feels_like: pick(unit, h.feelslike_c@, h.feelslike_f@),
        visibility: pick(unit, h.vis_km@, h.vis_miles@),
        clouds: h.cloud@,
        humidity: h.humidity@,
        pressure: h.pressure_mb@,
        wind_speed: wind_speed(unit, h.wind_kph@, h.wind_mph@),
        wind_deg: h.wind_degree * 1_000_000,
        uvi: h.uv@,
        condition: h.condition.text@,
        precip: Some(pick(unit, h.precip_mm@, h.precip_in@)),
        unit,
    }
}

/// The day that the entry `d` stands for in `unit`. The provider has no
/// average temperature, visibility, pressure or cloud cover for a day.
pub open spec fn day_view(d: ForecastDay, unit: UnitType) -> weather::DailyWeatherView {
    weather::DailyWeatherView {
        date: d.date@,
        min_temp: pick(unit, d.day.mintemp_c@, d.day.mintemp_f@),
        max_temp: pick(unit, d.day.maxtemp_c@, d.day.maxtemp_f@),
        avg_temp: None,
        visibility: None,
        humidity: d.day.avghumidity@,
        pressure: None,
        wind_speed: wind_speed(unit, d.day.maxwind_kph@, d.day.maxwind_mph@),
        uvi: d.day.uv@,
        clouds: None,
        condition: d.day.condition.text@,
        precip: Some(pick(unit, d.day.totalprecip_mm@, d.day.totalprecip_in@)),
        sunrise: Some(d.astro.sunrise@),
        sunset: Some(d.astro.sunset@),
        moonrise: Some(d.astro.moonrise@),
        moonset: Some(d.astro.moonset@),
        moon_phase: Some(d.astro.moon_phase@),
        unit,
    }
}

/// The hour that the entry `h` stands for in `unit`.
pub fn assemble_hour(h: &Hour, unit: UnitType) -> (r: weather::HourWeather)
    ensures
        r@ == hour_view(*h, unit),
{
    weather::HourWeather {
        time: h.time.clone(),
        temp: pick_for(unit, h.temp_c, h.temp_f),
        feels_like: pick_for(unit, h.feelslike_c, h.feelslike_f),
        visibility: pick_for(unit, h.vis_km, h.vis_miles),
        clouds: h.cloud,
        humidity: h.humidity,
        pressure: h.pressure_mb,
        wind_speed: wind_speed_for(unit, h.wind_kph, h.wind_mph),
        wind_deg: Decimal::from_units(h.wind_degree),
        uvi: h.uv,
        condition: h.condition.text.clone(),
        precip: Some(pick_for(unit, h.precip_mm, h.precip_in)),
        unit,
    }
}

/// The day that the entry `d` stands for in `unit`.
pub fn assemble_day(d: &ForecastDay, unit: UnitType) -> (r: weather::DailyWeather)
    ensures
        r@ == day_view(*d, unit),
{
    weather::DailyWeather {
        date: d.date.clone(),
        min_temp: pick_for(unit, d.day.mintemp_c, d.day.mintemp_f),
        max_temp: pick_for(unit, d.day.maxtemp_c, d.day.maxtemp_f),
        avg_temp: None,
        visibility: None,
        humidity: d.day.avghumidity,
        pressure: None,
        wind_speed: wind_speed_for(unit, d.day.maxwind_kph, d.day.maxwind_mph),
        uvi: d.day.uv,
        clouds: None,
        condition: d.day.condition.text.clone(),
        precip: Some(pick_for(unit, d.day.totalprecip_mm, d.day.totalprecip_in)),
        sunrise: Some(d.astro.sunrise.clone()),
        sunset: Some(d.astro.sunset.clone()),
        moonrise: Some(d.astro.moonrise.clone()),
        moonset: Some(d.astro.moonset.clone()),
        moon_phase: Some(d.astro.moon_phase.clone()),
        unit,
    }
}

/// The hours of all the days, in the order of the days.
pub open spec fn all_hours(days: Seq<ForecastDay>) -> Seq<Hour>
    decreases days.len(),
{
    if days.len() == 0 {
        Seq::empty()
    } else {
        all_hours(days.drop_last()) + days.last().hour@
    }
}

/// Whether an hour still counts at `now`.
pub open spec fn still_counts(now: int) -> spec_fn(Hour) -> bool {
    |h: Hour| is_upcoming(h.time_epoch as int, now)
}

/// The hours that a forecast by the hour is made of: those that still count
/// at `now`, in the order they came in, and no more than 24 of them.
pub open spec fn upcoming_hours(days: Seq<ForecastDay>, now: int) -> Seq<Hour> {
    first_n(all_hours(days).filter(still_counts(now)), 24)
}

/// `hour_view` for a given unit.
pub open spec fn hour_views(unit: UnitType) -> spec_fn(Hour) -> weather::HourWeatherView {
    |h: Hour| hour_view(h, unit)
}

/// `day_view` for a given unit.
pub open spec fn day_views(unit: UnitType) -> spec_fn(ForecastDay) -> weather::DailyWeatherView {
    |d: ForecastDay| day_view(d, unit)
}

/// The hours of the answer as of `now`, in `unit`.
pub open spec fn today_views(data: WeatherData, now: int, unit: UnitType) -> Seq<
    weather::HourWeatherView,
> {
    upcoming_hours(data.forecast.forecastday@, now).map_values(hour_views(unit))
}

/// The first `n_days` days of the answer in `unit`, or all where it has
/// fewer.
pub open spec fn days_views(data: WeatherData, n_days: nat, unit: UnitType) -> Seq<
    weather::DailyWeatherView,
> {
    first_n(data.forecast.forecastday@, n_days).map_values(day_views(unit))
}

/// The hours of all the days that a forecast as of `now` is made of.
pub fn select_upcoming<'a>(days: &'a Vec<ForecastDay>, now: i64) -> (sel: Vec<&'a Hour>)
    ensures
        pointees(sel@) == upcoming_hours(days@, now as int),
{
    let mut sel: Vec<&'a Hour> = Vec::new();
    let mut d: usize = 0;
    let ghost pred = still_counts(now as int);
    proof {
        reveal(Seq::filter);
        assert(days@.take(0) =~= Seq::<ForecastDay>::empty());
        assert(pointees(sel@) =~= first_n(all_hours(days@.take(0)).filter(pred), 24));
    }
    while d < days.len()
        invariant
            d <= days.len(),
            pred == still_counts(now as int),
            pointees(sel@) == first_n(all_hours(days@.take(d as int)).filter(pred), 24),
        decreases days.len() - d,
    {
        let hours = &days[d].hour;
        let ghost before = all_hours(days@.take(d as int));
        let mut k: usize = 0;
        proof {
            assert(before + hours@.take(0) =~= before);
        }
        while k < hours.len()
            invariant
                k <= hours.len(),
                pred == still_counts(now as int),
                pointees(sel@) == first_n((before + hours@.take(k as int)).filter(pred), 24),
            decreases hours.len() - k,
        {
            let h = &hours[k];
            proof {
                let seen = before + hours@.take(k as int);
                assert(before + hours@.take(k + 1) =~= seen.push(*h));
                lemma_filter_push(seen, *h, pred);
                lemma_first_n_push(seen.filter(pred), *h, 24);
            }
            if starts_in_time(h.time_epoch, now) && sel.len() < HOURS_AHEAD {
                let ghost old_sel = sel@;
                sel.push(h);
                assert(pointees(sel@) =~= pointees(old_sel).push(*h));
            }
            k += 1;
        }
        proof {
            assert(hours@.take(k as int) =~= hours@);
            assert(days@.take(d + 1).drop_last() =~= days@.take(d as int));
            assert(days@.take(d + 1).last() == days@[d as int]);
        }
        d += 1;
    }
    assert(days@.take(d as int) =~= days@);
    sel
}

/// How many days of forecast are asked of the provider for a time range.
pub open spec fn forecast_days(time: ForecastTime) -> nat {
    match time {
        ForecastTime::Now => 1,
        ForecastTime::Hours24 => 2,
        ForecastTime::Days3 => 3,
        ForecastTime::Days5 => 5,
    }
}

/// How many days of forecast are asked of the provider for a time range:
/// one for the current weather, two for the next 24 hours, which may reach
/// into tomorrow, and as many as asked for otherwise.
pub fn parse_forecast_time(time: &ForecastTime) -> (days: usize)
    ensures
        days == forecast_days(*time),
{
    match time {
        ForecastTime::Now => 1,
        ForecastTime::Hours24 => 2,
        ForecastTime::Days3 => 3,
        ForecastTime::Days5 => 5,
    }
}

impl WeatherData {
    /// The current weather in `unit`, with sunrise and sunset of the first
    /// day of the forecast.
    pub fn parse_to_current(self, unit: UnitType) -> (r: weather::CurrentWeather)
        ensures
            r@ == current_view(self, unit),
    {
        let (sunrise, sunset) = if self.forecast.forecastday.len() > 0 {
            let first = &self.forecast.forecastday[0];
            (Some(first.astro.sunrise.clone()), Some(first.astro.sunset.clone()))
        } else {
            (None, None)
        };
        let c = &self.current;
        weather::CurrentWeather {
            temp: pick_for(unit, c.temp_c, c.temp_f),
            feels_like: pick_for(unit, c.feelslike_c, c.feelslike_f),
            visibility: pick_for(unit, c.vis_km, c.vis_miles),
            clouds: c.cloud,
            humidity: c.humidity,
            pressure: c.pressure_mb,
            wind_speed: wind_speed_for(unit, c.wind_kph, c.wind_mph),
            wind_deg: Decimal::from_units(c.wind_degree),
            uvi: c.uv,
            sunrise,
            sunset,
            condition: c.condition.text.clone(),
            precip: Some(pick_for(unit, c.precip_mm, c.precip_in)),
            unit,
        }
    }

    /// The hours from the current one on, 24 at most, as of `now` in seconds
    /// since 1970.
    pub fn parse_to_today(self, now: i64, unit: UnitType) -> (r: Vec<weather::HourWeather>)
        ensures
            r.deep_view() == today_views(self, now as int, unit),
    {
        let sel = select_upcoming(&self.forecast.forecastday, now);
        let ghost items = pointees(sel@);
        let ghost f = hour_views(unit);
        let mut out: Vec<weather::HourWeather> = Vec::new();
        let mut j: usize = 0;
        proof {
            assert(out.deep_view() =~= items.take(0).map_values(f));
        }
        while j < sel.len()
            invariant
                j <= sel.len(),
                items == pointees(sel@),
                f == hour_views(unit),
                out.deep_view() == items.take(j as int).map_values(f),
            decreases sel.len() - j,
        {
            let ghost done = out.deep_view();
            let hour = assemble_hour(sel[j], unit);
            out.push(hour);
            proof {
                assert(items[j as int] == *sel[j as int]);
                assert(out.deep_view() =~= done.push(hour@));
                assert(items.take(j + 1).map_values(f) =~= items.take(j as int).map_values(f).push(
                    f(items[j as int]),
                ));
            }
            j += 1;
        }
        assert(items.take(j as int) =~= items);
        out
    }

    /// The first `n_days` days in `unit`, or as many as the answer has.
    pub fn parse_to_days(self, n_days: usize, unit: UnitType) -> (r: Vec<weather::DailyWeather>)
        ensures
            r.deep_view() == days_views(self, n_days as nat, unit),
    {
        let days = &self.forecast.forecastday;
        let count: usize = if days.len() <= n_days {
            days.len()
        } else {
            n_days
        };
        let ghost items = first_n(days@, n_days as nat);
        let ghost f = day_views(unit);
        let mut out: Vec<weather::DailyWeather> = Vec::new();
        let mut j: usize = 0;
        proof {
            assert(out.deep_view() =~= items.take(0).map_values(f));
        }
        while j < count
            invariant
                j <= count,
                count == items.len(),
                count <= days.len(),
                items == first_n(days@, n_days as nat),
                f == day_views(unit),
                out.deep_view() == items.take(j as int).map_values(f),
            decreases count - j,
        {
            let ghost done = out.deep_view();
            let day = assemble_day(&days[j], unit);
            out.push(day);
            proof {
                assert(items[j as int] == days@[j as int]);
                assert(out.deep_view() =~= done.push(day@));
                assert(items.take(j + 1).map_values(f) =~= items.take(j as int).map_values(f).push(
                    f(items[j as int]),
                ));
            }
            j += 1;
        }
        assert(items.take(j as int) =~= items);
        out
    }
}

/// Where the provider answers.
pub open spec fn base_address() -> Seq<char> {
    "https://api.weatherapi.com"@
}

/// The parameters of a query: the position as latitude and longitude with a
/// comma between, the key, the days of forecast, and alerts. No units are
/// asked for: the answer has both.
pub open spec fn query_of(coord: Coordinates, key: Seq<char>, time: ForecastTime) -> Seq<
    (Seq<char>, Seq<char>),
> {
    seq![
        ("q"@, plain_text(coord.lat@) + ","@ + plain_text(coord.lon@)),
        ("key"@, key),
        ("days"@, digits(forecast_days(time))),
        ("alerts"@, "yes"@),
    ]
}

/// The forecast that an answer holds for a time range as of `now`.
pub open spec fn forecast_view(data: WeatherData, now: int, time: ForecastTime, unit: UnitType) -> WeatherView {
    match time {
        ForecastTime::Now => WeatherView::Current(current_view(data, unit)),
        ForecastTime::Hours24 => WeatherView::Today(today_views(data, now, unit)),
        ForecastTime::Days3 => WeatherView::Daily(days_views(data, 3, unit)),
        ForecastTime::Days5 => WeatherView::Daily(days_views(data, 5, unit)),
    }
}

/// The path of the call that answers with current weather and forecast.
pub open spec fn forecast_path() -> Seq<char> {
    "/v1/forecast.json"@
}

/// The address of that call, if the provider's address is a URL.
pub open spec fn endpoint() -> Option<Seq<char>> {
    address_with_path(base_address(), forecast_path())
}

/// The provider: the address that it is asked at, and the key to it.
#[derive(Debug)]
pub struct WeatherApi {
    pub address: String,
    pub key: String,
}

impl WeatherApi {
    /// The provider with the key `key`, given what came of writing its
    /// address: the provider at that address, or the failure to parse.
    pub fn with_address(written: Result<String, ParseError>, key: String) -> (r: Result<
        WeatherApi,
        AppError,
    >)
        ensures
            match written {
                Ok(address) => r matches Ok(provider) && provider.address@ == address@
                    && provider.key@ == key@,
                Err(e) => r matches Err(AppError::UrlParse(told)) && told == e,
            },
    {
        match written {
            Ok(address) => Ok(WeatherApi { address, key }),
            Err(e) => Err(AppError::UrlParse(e)),
        }
    }

    /// The provider with the key `key`, asked at the path of the forecast
    /// call under the provider's address. It fails where that is no URL,
    /// and only there.
    pub fn new(key: String) -> (r: Result<WeatherApi, AppError>)
        ensures
            r is Ok <==> endpoint() is Some,
            r matches Ok(provider) ==> Some(provider.address@) == endpoint() && provider.key@
                == key@,
            r matches Err(e) ==> e is UrlParse,
    {
        proof {
            reveal_strlit("https://api.weatherapi.com");
            reveal_strlit("/v1/forecast.json");
        }
        WeatherApi::with_address(
            write_address("https://api.weatherapi.com", "/v1/forecast.json"),
            key,
        )
    }
}

impl Provider for WeatherApi {
    type Answer = WeatherData;

    open spec fn address(&self) -> Seq<char> {
        self.address@
    }

    open spec fn query(&self, coord: Coordinates, time: ForecastTime, unit: UnitType) -> Seq<
        (Seq<char>, Seq<char>),
    > {
        query_of(coord, self.key@, time)
    }

    /// Reading an answer of this provider never fails.
    open spec fn outcome(data: WeatherData, now: int, time: ForecastTime, unit: UnitType) -> Result<
        WeatherView,
        Seq<char>,
    > {
        Ok(forecast_view(data, now, time, unit))
    }

    /// The days to answer with follow from the time range; the units play
    /// no part, since the answer has both.
    fn request(&self, coord: Coordinates, time: ForecastTime, unit: UnitType) -> (r: Request)
        ensures
            Some(self.address@) == endpoint() ==> Some(r.url@) == address_with_path(
                base_address(),
                "/v1/forecast.json"@,
            ),
    {
        let url = self.address.clone();
        let mut position = coord.lat.to_plain();
        position.append(",");
        coord.lon.append_plain(&mut position);
        let mut query: Vec<(String, String)> = Vec::new();
        query.push(param("q", position));
        query.push(param("key", self.key.clone()));
        query.push(param("days", usize_to_string(parse_forecast_time(&time))));
        query.push(param("alerts", String::from_str("yes")));
        assert(query.deep_view() =~= query_of(coord, self.key@, time));
        Request { url, query }
    }

    fn interpret_at(
        &self,
        data: WeatherData,
        now: i64,
        time: ForecastTime,
        unit: UnitType,
    ) -> (r: Result<Weather, AppError>) {
        Ok(
            match time {
                ForecastTime::Now => Weather::Current(data.parse_to_current(unit)),
                ForecastTime::Hours24 => Weather::Today(data.parse_to_today(now, unit)),
                ForecastTime::Days3 => Weather::Daily(data.parse_to_days(3, unit)),
                ForecastTime::Days5 => Weather::Daily(data.parse_to_days(5, unit)),
            },
        )
    }
}

/// When an hour starts.
pub open spec fn start_of() -> spec_fn(Hour) -> int {
    |h: Hour| h.time_epoch as int
}

/// A forecast by the hour never has more than 24 hours, and has exactly 24
/// where at least 24 still count. Every hour in it started less than an
/// hour before `now` or lies ahead, and stood in the answer. Where the
/// answer's hours are in the order of time, so are the forecast's. Each
/// hour of the forecast is read from the hour in its place.
pub proof fn law_upcoming_hours(data: WeatherData, now: int, unit: UnitType)
    ensures
        today_views(data, now, unit).len() == upcoming_hours(data.forecast.forecastday@, now).len(),
        today_views(data, now, unit).len() <= 24,
        all_hours(data.forecast.forecastday@).filter(still_counts(now)).len() >= 24
            ==> today_views(data, now, unit).len() == 24,
        forall|i: int|
            0 <= i < today_views(data, now, unit).len() ==> #[trigger] today_views(
                data,
                now,
                unit,
            )[i] == hour_view(upcoming_hours(data.forecast.forecastday@, now)[i], unit),
        forall|i: int|
            0 <= i < upcoming_hours(data.forecast.forecastday@, now).len() ==> (#[trigger] upcoming_hours(
                data.forecast.forecastday@,
                now,
            )[i]).time_epoch - now > -3_600,
        forall|i: int|
            0 <= i < upcoming_hours(data.forecast.forecastday@, now).len() ==> all_hours(
                data.forecast.forecastday@,
            ).contains(#[trigger] upcoming_hours(data.forecast.forecastday@, now)[i]),
        ascending(all_hours(data.forecast.forecastday@), start_of()) ==> ascending(
            upcoming_hours(data.forecast.forecastday@, now),
            start_of(),
        ),
{
    law_first_filtered(all_hours(data.forecast.forecastday@), still_counts(now), start_of(), 24);
}

/// A forecast by the day has as many days as were asked for, or as many as
/// the answer has where it has fewer: that is no failure. Each day of the
/// forecast is read from the day in its place.
pub proof fn law_days_as_received(data: WeatherData, n_days: nat, unit: UnitType)
    ensures
        days_views(data, n_days, unit).len() == if data.forecast.forecastday@.len() <= n_days {
            data.forecast.forecastday@.len()
        } else {
            n_days
        },
        forall|i: int|
            0 <= i < days_views(data, n_days, unit).len() ==> #[trigger] days_views(
                data,
                n_days,
                unit,
            )[i] == day_view(data.forecast.forecastday@[i], unit),
{
}

/// A measurement that the provider gives in both systems is read from the
/// field of the system asked for, as it stands: the imperial number for
/// imperial units, the metric number for metric ones.
pub proof fn law_units_are_picked(h: Hour, d: ForecastDay, data: WeatherData)
    ensures
        hour_view(h, UnitType::Imperial).temp == h.temp_f@,
        hour_view(h, UnitType::Metric).temp == h.temp_c@,
        hour_view(h, UnitType::Imperial).feels_like == h.feelslike_f@,
        hour_view(h, UnitType::Metric).feels_like == h.feelslike_c@,
        hour_view(h, UnitType::Imperial).visibility == h.vis_miles@,
        hour_view(h, UnitType::Metric).visibility == h.vis_km@,
        hour_view(h, UnitType::Imperial).wind_speed == h.wind_mph@,
        hour_view(h, UnitType::Metric).wind_speed == kph_as_mps(h.wind_kph@),
        hour_view(h, UnitType::Imperial).precip == Some(h.precip_in@),
        hour_view(h, UnitType::Metric).precip == Some(h.precip_mm@),
        current_view(data, UnitType::Imperial).temp == data.current.temp_f@,
        current_view(data, UnitType::Metric).temp == data.current.temp_c@,
        current_view(data, UnitType::Imperial).wind_speed == data.current.wind_mph@,
        current_view(data, UnitType::Metric).wind_speed == kph_as_mps(data.current.wind_kph@),
        day_view(d, UnitType::Imperial).min_temp == d.day.mintemp_f@,
        day_view(d, UnitType::Metric).min_temp == d.day.mintemp_c@,
        day_view(d, UnitType::Imperial).max_temp == d.day.maxtemp_f@,
        day_view(d, UnitType::Metric).max_temp == d.day.maxtemp_c@,
        day_view(d, UnitType::Imperial).wind_speed == d.day.maxwind_mph@,
        day_view(d, UnitType::Metric).wind_speed == kph_as_mps(d.day.maxwind_kph@),
{
}

} // verus!
