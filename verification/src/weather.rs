//! The model that every provider's data is brought into, and its text.

use vstd::prelude::*;
use vstd::string::StringExecFns;
use crate::decimal::Decimal;
use crate::decimal::fixed2_text;
use crate::decimal::opt_micros;
use crate::decimal::opt_text;
use crate::decimal::plain_text;
use crate::decimal::saturating_whole;
use crate::errors::AppError;
use crate::errors::CoordinatesError;

verus! {

/// The system of units that measurements are given in.
#[derive(Clone, Copy, Debug, PartialEq, Eq, Structural)]
pub enum UnitType {
    Metric,
    Imperial,
}

/// The time range that a forecast is asked for.
#[derive(Clone, Copy, Debug, PartialEq, Eq, Structural)]
pub enum ForecastTime {
    Now,
    Hours24,
    Days3,
    Days5,
}

/// A geodetic position in degrees.
#[derive(Clone, Copy, Debug, PartialEq, Eq, Structural)]
pub struct Coordinates {
    /// Latitude, from -90 to 90 degrees.
    pub lat: Decimal,
    /// Longitude, from -180 to 180 degrees.
    pub lon: Decimal,
}

/// Millionths of a degree in the largest latitude.
pub const MAX_LATITUDE_MICROS: i64 = 90_000_000;

/// Millionths of a degree in the largest longitude.
pub const MAX_LONGITUDE_MICROS: i64 = 180_000_000;

impl Coordinates {
    /// The latitude lies from -90 to 90 degrees.
    pub open spec fn latitude_in_range(self) -> bool {
        -90_000_000 <= self.lat@ <= 90_000_000
    }

    /// The longitude lies from -180 to 180 degrees.
    pub open spec fn longitude_in_range(self) -> bool {
        -180_000_000 <= self.lon@ <= 180_000_000
    }

    /// Both latitude and longitude lie in their ranges.
    pub open spec fn is_valid(self) -> bool {
        self.latitude_in_range() && self.longitude_in_range()
    }

    /// What `validate` answers: the latitude is looked at first.
    pub open spec fn validation(self) -> Result<(), AppError> {
        if !self.latitude_in_range() {
            Err(AppError::Coordinates(CoordinatesError::Latitude(self.lat)))
        } else if !self.longitude_in_range() {
            Err(AppError::Coordinates(CoordinatesError::Longitude(self.lon)))
        } else {
            Ok(())
        }
    }

    /// Accepts a position on the globe, and names the first coordinate out
    /// of range otherwise, with its value.
    pub fn validate(&self) -> (r: Result<(), AppError>)
        ensures
            r == self.validation(),
            r is Ok <==> self.is_valid(),
    {
        if self.lat.micros < -MAX_LATITUDE_MICROS || self.lat.micros > MAX_LATITUDE_MICROS {
            return Err(AppError::Coordinates(CoordinatesError::Latitude(self.lat)));
        }
        if self.lon.micros < -MAX_LONGITUDE_MICROS || self.lon.micros > MAX_LONGITUDE_MICROS {
            return Err(AppError::Coordinates(CoordinatesError::Longitude(self.lon)));
        }
        Ok(())
    }
}

/// A position with a coordinate out of range is refused, and the first
/// such coordinate is named with its value: the latitude where it is out of
/// range, the longitude where only that is. Every other position is
/// accepted.
pub proof fn law_out_of_range_is_refused(c: Coordinates)
    ensures
        !c.latitude_in_range() ==> c.validation() == Err::<(), AppError>(
            AppError::Coordinates(CoordinatesError::Latitude(c.lat)),
        ),
        c.latitude_in_range() && !c.longitude_in_range() ==> c.validation() == Err::<(), AppError>(
            AppError::Coordinates(CoordinatesError::Longitude(c.lon)),
        ),
        c.is_valid() <==> c.validation() is Ok,
{
}

/// The name under which a place is saved. Names differ by case.
#[derive(Debug)]
pub struct PlaceTag {
    pub tag: String,
}

impl View for PlaceTag {
    type V = Seq<char>;

    open spec fn view(&self) -> Seq<char> {
        self.tag@
    }
}

impl Clone for PlaceTag {
    fn clone(&self) -> (r: PlaceTag)
        ensures
            r == *self,
    {
        PlaceTag { tag: self.tag.clone() }
    }
}

impl PlaceTag {
    /// Whether two tags are the same name.
    pub fn same(&self, other: &PlaceTag) -> (r: bool)
        ensures
            r == (self@ == other@),
    {
        self.tag == other.tag
    }
}

/// A named place.
#[derive(Debug)]
pub struct Place {
    pub tag: PlaceTag,
    pub coordinates: Coordinates,
}

/// What a `Place` holds.
pub struct PlaceView {
    pub tag: Seq<char>,
    pub coordinates: Coordinates,
}

impl View for Place {
    type V = PlaceView;

    open spec fn view(&self) -> PlaceView {
        PlaceView { tag: self.tag@, coordinates: self.coordinates }
    }
}

impl DeepView for Place {
    type V = PlaceView;

    open spec fn deep_view(&self) -> PlaceView {
        self@
    }
}

impl Clone for Place {
    fn clone(&self) -> (r: Place)
        ensures
            r == *self,
    {
        Place { tag: self.tag.clone(), coordinates: self.coordinates }
    }
}

impl PartialEq for Place {
    /// Two places are the same place where their tags are the same name,
    /// wherever they lie.
    fn eq(&self, other: &Place) -> (r: bool) {
        self.tag.same(&other.tag)
    }
}

impl vstd::std_specs::cmp::PartialEqSpecImpl for Place {
    open spec fn obeys_eq_spec() -> bool {
        true
    }

    open spec fn eq_spec(&self, other: &Place) -> bool {
        self.tag@ == other.tag@
    }
}

impl Eq for Place {

}

impl PlaceView {
    /// The two lines that show the place.
    pub open spec fn text(self) -> Seq<char> {
        "Place: "@ + self.tag + "\nCoordinates: (lat: "@ + plain_text(self.coordinates.lat@)
            + ", lon: "@ + plain_text(self.coordinates.lon@) + ")\n"@
    }
}

impl Place {
    /// The two lines that show the place, each ended.
    pub fn render(&self) -> (s: String)
        ensures
            s@ == self@.text(),
    {
        let mut out = String::from_str("Place: ");
        out.append(self.tag.tag.as_str());
        out.append("\nCoordinates: (lat: ");
        self.coordinates.lat.append_plain(&mut out);
        out.append(", lon: ");
        self.coordinates.lon.append_plain(&mut out);
        out.append(")\n");
        out
    }
}

/// The key that a provider gave out.
#[derive(Debug)]
pub struct ProviderCredentials {
    pub key: String,
}

impl Clone for ProviderCredentials {
    fn clone(&self) -> (r: ProviderCredentials)
        ensures
            r == *self,
    {
        ProviderCredentials { key: self.key.clone() }
    }
}

/// A weather provider, with the key to it.
#[derive(Debug)]
pub enum Provider {
    OpenWeather(ProviderCredentials),
    WeatherApi(ProviderCredentials),
}

impl Clone for Provider {
    fn clone(&self) -> (r: Provider)
        ensures
            r == *self,
    {
        match self {
            Provider::OpenWeather(c) => Provider::OpenWeather(c.clone()),
            Provider::WeatherApi(c) => Provider::WeatherApi(c.clone()),
        }
    }
}

impl Provider {
    /// The provider's name. The key is no part of it.
    pub open spec fn name_text(self) -> Seq<char> {
        match self {
            Provider::OpenWeather(_) => "Open Weather"@,
            Provider::WeatherApi(_) => "Weather API"@,
        }
    }

    /// The provider's name.
    pub fn name(&self) -> (s: String)
        ensures
            s@ == self.name_text(),
    {
        match self {
            Provider::OpenWeather(_) => String::from_str("Open Weather"),
            Provider::WeatherApi(_) => String::from_str("Weather API"),
        }
    }
}

/// What is to be done with the saved places.
#[derive(Debug)]
pub enum PlacesAction {
    /// Show all the saved places.
    GetAll,
    /// Save a new place, or move the place that has the tag.
    Save(Place),
    /// Remove the place with the tag, if there is one.
    Remove(PlaceTag),
}

/// Where a forecast is asked for.
#[derive(Debug)]
pub enum Location {
    /// A saved place, by its tag.
    Place(PlaceTag),
    /// A position.
    Coordinates(Coordinates),
}

/// The direction that a bearing in degrees points to, by name. The bearing
/// is taken in whole degrees, the fraction dropped, and turned into the
/// circle.
pub open spec fn cardinal_text(degree: int) -> Seq<char> {
    let d = saturating_whole(degree) % 360;
    if d <= 22 {
        "North"@
    } else if d <= 67 {
        "Northeast"@
    } else if d <= 112 {
        "East"@
    } else if d <= 157 {
        "Southeast"@
    } else if d <= 202 {
        "South"@
    } else if d <= 247 {
        "Southwest"@
    } else if d <= 292 {
        "West"@
    } else if d <= 337 {
        "Northwest"@
    } else {
        "North"@
    }
}

/// The name of the direction that a bearing in degrees points to.
pub fn cardinal_dir_from(degree: Decimal) -> (s: String)
    ensures
        s@ == cardinal_text(degree@),
{
    let d: u32 = degree.whole_units() % 360;
    let name = if d <= 22 {
        "North"
    } else if d <= 67 {
        "Northeast"
    } else if d <= 112 {
        "East"
    } else if d <= 157 {
        "Southeast"
    } else if d <= 202 {
        "South"
    } else if d <= 247 {
        "Southwest"
    } else if d <= 292 {
        "West"
    } else if d <= 337 {
        "Northwest"
    } else {
        "North"
    };
    String::from_str(name)
}

impl UnitType {
    /// The name of the system.
    pub open spec fn name_text(self) -> Seq<char> {
        match self {
            UnitType::Metric => "Metric"@,
            UnitType::Imperial => "Imperial"@,
        }
    }

    /// The unit of temperature.
    pub open spec fn temp_label(self) -> Seq<char> {
        match self {
            UnitType::Metric => "°C"@,
            UnitType::Imperial => "°F"@,
        }
    }

    /// The unit of temperature after a space.
    pub open spec fn temp_suffix(self) -> Seq<char> {
        match self {
            UnitType::Metric => " °C"@,
            UnitType::Imperial => " °F"@,
        }
    }

    /// The unit of speed after a space.
    pub open spec fn speed_suffix(self) -> Seq<char> {
        match self {
            UnitType::Metric => " m/s"@,
            UnitType::Imperial => " mph"@,
        }
    }

    /// The unit of distance after a space.
    pub open spec fn distance_suffix(self) -> Seq<char> {
        match self {
            UnitType::Metric => " km"@,
            UnitType::Imperial => " mi"@,
        }
    }

    /// The unit of precipitation after a space.
    pub open spec fn precip_suffix(self) -> Seq<char> {
        match self {
            UnitType::Metric => " mm"@,
            UnitType::Imperial => " inches"@,
        }
    }

    /// The name of the system.
    pub fn name(&self) -> (s: String)
        ensures
            s@ == self.name_text(),
    {
        match self {
            UnitType::Metric => String::from_str("Metric"),
            UnitType::Imperial => String::from_str("Imperial"),
        }
    }

    fn temp_label_str(self) -> (s: &'static str)
        ensures
            s@ == self.temp_label(),
    {
        match self {
            UnitType::Metric => "°C",
            UnitType::Imperial => "°F",
        }
    }

    fn temp_suffix_str(self) -> (s: &'static str)
        ensures
            s@ == self.temp_suffix(),
    {
        match self {
            UnitType::Metric => " °C",
            UnitType::Imperial => " °F",
        }
    }

    fn speed_suffix_str(self) -> (s: &'static str)
        ensures
            s@ == self.speed_suffix(),
    {
        match self {
            UnitType::Metric => " m/s",
            UnitType::Imperial => " mph",
        }
    }

    fn distance_suffix_str(self) -> (s: &'static str)
        ensures
            s@ == self.distance_suffix(),
    {
        match self {
            UnitType::Metric => " km",
            UnitType::Imperial => " mi",
        }
    }

    fn precip_suffix_str(self) -> (s: &'static str)
        ensures
            s@ == self.precip_suffix(),
    {
        match self {
            UnitType::Metric => " mm",
            UnitType::Imperial => " inches",
        }
    }
}

/// One line of a measurement: its label, the value with two digits after
/// the point, its unit, and a line end.
pub open spec fn measure_line(label: Seq<char>, value: int, suffix: Seq<char>) -> Seq<char> {
    label + fixed2_text(value) + suffix + "\n"@
}

/// One line of text: its label, the text, and a line end.
pub open spec fn text_line(label: Seq<char>, value: Seq<char>) -> Seq<char> {
    label + value + "\n"@
}

/// The line of a measurement that may be absent: no line at all then.
pub open spec fn opt_measure_line(
    label: Seq<char>,
    value: Option<int>,
    suffix: Seq<char>,
) -> Seq<char> {
    match value {
        Some(v) => measure_line(label, v, suffix),
        None => Seq::empty(),
    }
}

/// The line of a text that may be absent: no line at all then.
pub open spec fn opt_text_line(label: Seq<char>, value: Option<Seq<char>>) -> Seq<char> {
    match value {
        Some(v) => text_line(label, v),
        None => Seq::empty(),
    }
}

fn push_measure(out: &mut String, label: &str, value: Decimal, suffix: &str)
    ensures
        final(out)@ == old(out)@ + measure_line(label@, value@, suffix@),
{
    out.append(label);
    value.append_fixed2(out);
    out.append(suffix);
    out.append("\n");
    assert(old(out)@ + label@ + fixed2_text(value@) + suffix@ + "\n"@ =~= old(out)@ + measure_line(
        label@,
        value@,
        suffix@,
    ));
}

fn push_text(out: &mut String, label: &str, value: &str)
    ensures
        final(out)@ == old(out)@ + text_line(label@, value@),
{
    out.append(label);
    out.append(value);
    out.append("\n");
    assert(old(out)@ + label@ + value@ + "\n"@ =~= old(out)@ + text_line(label@, value@));
}

fn push_opt_measure(out: &mut String, label: &str, value: Option<Decimal>, suffix: &str)
    ensures
        final(out)@ == old(out)@ + opt_measure_line(label@, opt_micros(value), suffix@),
{
    match value {
        Some(v) => push_measure(out, label, v, suffix),
        None => {
            assert(old(out)@ + Seq::<char>::empty() =~= old(out)@);
        },
    }
}

fn push_opt_text(out: &mut String, label: &str, value: &Option<String>)
    ensures
        final(out)@ == old(out)@ + opt_text_line(label@, opt_text(*value)),
{
    match value {
        Some(v) => push_text(out, label, v.as_str()),
        None => {
            assert(old(out)@ + Seq::<char>::empty() =~= old(out)@);
        },
    }
}

/// The weather at this moment.
#[derive(Debug)]
pub struct CurrentWeather {
    pub temp: Decimal,
    pub feels_like: Decimal,
    pub visibility: Decimal,
    pub clouds: Decimal,
    pub humidity: Decimal,
    pub pressure: Decimal,
    pub wind_speed: Decimal,
    pub wind_deg: Decimal,
    pub uvi: Decimal,
    pub sunrise: Option<String>,
    pub sunset: Option<String>,
    pub condition: String,
    pub precip: Option<Decimal>,
    pub unit: UnitType,
}

/// What a `CurrentWeather` holds.
pub struct CurrentWeatherView {
    pub temp: int,
    pub feels_like: int,
    pub visibility: int,
    pub clouds: int,
    pub humidity: int,
    pub pressure: int,
    pub wind_speed: int,
    pub wind_deg: int,
    pub uvi: int,
    pub sunrise: Option<Seq<char>>,
    pub sunset: Option<Seq<char>>,
    pub condition: Seq<char>,
    pub precip: Option<int>,
    pub unit: UnitType,
}

impl View for CurrentWeather {
    type V = CurrentWeatherView;

    open spec fn view(&self) -> CurrentWeatherView {
        CurrentWeatherView {
            temp: self.temp@,
            feels_like: self.feels_like@,
            visibility: self.visibility@,
            clouds: self.clouds@,
            humidity: self.humidity@,
            pressure: self.pressure@,
            wind_speed: self.wind_speed@,
            wind_deg: self.wind_deg@,
            uvi: self.uvi@,
            sunrise: opt_text(self.sunrise),
            sunset: opt_text(self.sunset),
            condition: self.condition@,
            precip: opt_micros(self.precip),
            unit: self.unit,
        }
    }
}

impl CurrentWeatherView {
    /// The block of lines that shows the weather.
    pub open spec fn text(self) -> Seq<char> {
        "Current Weather:\n"@ + measure_line("Temperature: "@, self.temp, self.unit.temp_suffix())
            + measure_line("Feels Like: "@, self.feels_like, self.unit.temp_suffix())
            + measure_line("Visibility: "@, self.visibility, self.unit.distance_suffix())
            + measure_line("Clouds: "@, self.clouds, "%"@) + measure_line(
            "Humidity: "@,
            self.humidity,
            "%"@,
        ) + measure_line("Pressure: "@, self.pressure, " hPa"@) + measure_line(
            "Wind Speed: "@,
            self.wind_speed,
            self.unit.speed_suffix(),
        ) + text_line("Wind Direction: "@, cardinal_text(self.wind_deg)) + measure_line(
            "UV Index: "@,
            self.uvi,
            ""@,
        ) + opt_text_line("Sunrise: "@, self.sunrise) + opt_text_line("Sunset: "@, self.sunset)
            + text_line("Condition: "@, self.condition) + opt_measure_line(
            "Precipitation: "@,
            self.precip,
            self.unit.precip_suffix(),
        )
    }
}

impl CurrentWeather {
    /// The block of lines that shows the weather, each line ended.
    pub fn render(&self) -> (s: String)
        ensures
            s@ == self@.text(),
    {
        let mut out = String::from_str("Current Weather:\n");
        push_measure(&mut out, "Temperature: ", self.temp, self.unit.temp_suffix_str());
        push_measure(&mut out, "Feels Like: ", self.feels_like, self.unit.temp_suffix_str());
        push_measure(&mut out, "Visibility: ", self.visibility, self.unit.distance_suffix_str());
        push_measure(&mut out, "Clouds: ", self.clouds, "%");
        push_measure(&mut out, "Humidity: ", self.humidity, "%");
        push_measure(&mut out, "Pressure: ", self.pressure, " hPa");
        push_measure(&mut out, "Wind Speed: ", self.wind_speed, self.unit.speed_suffix_str());
        let direction = cardinal_dir_from(self.wind_deg);
        push_text(&mut out, "Wind Direction: ", direction.as_str());
        push_measure(&mut out, "UV Index: ", self.uvi, "");
        push_opt_text(&mut out, "Sunrise: ", &self.sunrise);
        push_opt_text(&mut out, "Sunset: ", &self.sunset);
        push_text(&mut out, "Condition: ", self.condition.as_str());
        push_opt_measure(&mut out, "Precipitation: ", self.precip, self.unit.precip_suffix_str());
        out
    }
}

/// The weather of one hour.
#[derive(Debug)]
pub struct HourWeather {
    pub time: String,
    pub temp: Decimal,
    pub feels_like: Decimal,
    pub visibility: Decimal,
    pub clouds: Decimal,
    pub humidity: Decimal,
    pub pressure: Decimal,
    pub wind_speed: Decimal,
    pub wind_deg: Decimal,
    pub uvi: Decimal,
    pub condition: String,
    pub precip: Option<Decimal>,
    pub unit: UnitType,
}

/// What an `HourWeather` holds.
pub struct HourWeatherView {
    pub time: Seq<char>,
    pub temp: int,
    pub feels_like: int,
    pub visibility: int,
    pub clouds: int,
    pub humidity: int,
    pub pressure: int,
    pub wind_speed: int,
    pub wind_deg: int,
    pub uvi: int,
    pub condition: Seq<char>,
    pub precip: Option<int>,
    pub unit: UnitType,
}

impl View for HourWeather {
    type V = HourWeatherView;

    open spec fn view(&self) -> HourWeatherView {
        HourWeatherView {
            time: self.time@,
            temp: self.temp@,
            feels_like: self.feels_like@,
            visibility: self.visibility@,
            clouds: self.clouds@,
            humidity: self.humidity@,
            pressure: self.pressure@,
            wind_speed: self.wind_speed@,
            wind_deg: self.wind_deg@,
            uvi: self.uvi@,
            condition: self.condition@,
            precip: opt_micros(self.precip),
            unit: self.unit,
        }
    }
}

impl DeepView for HourWeather {
    type V = HourWeatherView;

    open spec fn deep_view(&self) -> HourWeatherView {
        self@
    }
}

impl HourWeatherView {
    /// The block of lines that shows the hour.
    pub open spec fn text(self) -> Seq<char> {
        text_line("Time: "@, self.time) + measure_line(
            "Temperature: "@,
            self.temp,
            self.unit.temp_suffix(),
        ) + measure_line("Feels Like: "@, self.feels_like, self.unit.temp_suffix())
            + measure_line("Visibility: "@, self.visibility, self.unit.distance_suffix())
            + measure_line("Clouds: "@, self.clouds, "%"@) + measure_line(
            "Humidity: "@,
            self.humidity,
            "%"@,
        ) + measure_line("Pressure: "@, self.pressure, " hPa"@) + measure_line(
            "Wind Speed: "@,
            self.wind_speed,
            self.unit.speed_suffix(),
        ) + text_line("Wind Direction: "@, cardinal_text(self.wind_deg)) + measure_line(
            "UV Index: "@,
            self.uvi,
            ""@,
        ) + text_line("Condition: "@, self.condition) + opt_measure_line(
            "Precipitation: "@,
            self.precip,
            self.unit.precip_suffix(),
        )
    }
}

impl HourWeather {
    /// The block of lines that shows the hour, each line ended.
    pub fn render(&self) -> (s: String)
        ensures
            s@ == self@.text(),
    {
        let mut out = String::from_str("Time: ");
        out.append(self.time.as_str());
        out.append("\n");
        push_measure(&mut out, "Temperature: ", self.temp, self.unit.temp_suffix_str());
        push_measure(&mut out, "Feels Like: ", self.feels_like, self.unit.temp_suffix_str());
        push_measure(&mut out, "Visibility: ", self.visibility, self.unit.distance_suffix_str());
        push_measure(&mut out, "Clouds: ", self.clouds, "%");
        push_measure(&mut out, "Humidity: ", self.humidity, "%");
        push_measure(&mut out, "Pressure: ", self.pressure, " hPa");
        push_measure(&mut out, "Wind Speed: ", self.wind_speed, self.unit.speed_suffix_str());
        let direction = cardinal_dir_from(self.wind_deg);
        push_text(&mut out, "Wind Direction: ", direction.as_str());
        push_measure(&mut out, "UV Index: ", self.uvi, "");
        push_text(&mut out, "Condition: ", self.condition.as_str());
        push_opt_measure(&mut out, "Precipitation: ", self.precip, self.unit.precip_suffix_str());
        out
    }
}

/// The weather of one day.
#[derive(Debug)]
pub struct DailyWeather {
    pub date: String,
    pub min_temp: Decimal,
    pub max_temp: Decimal,
    pub avg_temp: Option<Decimal>,
    pub visibility: Option<Decimal>,
    pub humidity: Decimal,
    pub pressure: Option<Decimal>,
    pub wind_speed: Decimal,
    pub uvi: Decimal,
    pub clouds: Option<Decimal>,
    pub condition: String,
    pub precip: Option<Decimal>,
    pub sunrise: Option<String>,
    pub sunset: Option<String>,
    pub moonrise: Option<String>,
    pub moonset: Option<String>,
    pub moon_phase: Option<String>,
    pub unit: UnitType,
}

/// What a `DailyWeather` holds.
pub struct DailyWeatherView {
    pub date: Seq<char>,
    pub min_temp: int,
    pub max_temp: int,
    pub avg_temp: Option<int>,
    pub visibility: Option<int>,
    pub humidity: int,
    pub pressure: Option<int>,
    pub wind_speed: int,
    pub uvi: int,
    pub clouds: Option<int>,
    pub condition: Seq<char>,
    pub precip: Option<int>,
    pub sunrise: Option<Seq<char>>,
    pub sunset: Option<Seq<char>>,
    pub moonrise: Option<Seq<char>>,
    pub moonset: Option<Seq<char>>,
    pub moon_phase: Option<Seq<char>>,
    pub unit: UnitType,
}

impl View for DailyWeather {
    type V = DailyWeatherView;

    open spec fn view(&self) -> DailyWeatherView {
        DailyWeatherView {
            date: self.date@,
            min_temp: self.min_temp@,
            max_temp: self.max_temp@,
            avg_temp: opt_micros(self.avg_temp),
            visibility: opt_micros(self.visibility),
            humidity: self.humidity@,
            pressure: opt_micros(self.pressure),
            wind_speed: self.wind_speed@,
            uvi: self.uvi@,
            clouds: opt_micros(self.clouds),
            condition: self.condition@,
            precip: opt_micros(self.precip),
            sunrise: opt_text(self.sunrise),
            sunset: opt_text(self.sunset),
            moonrise: opt_text(self.moonrise),
            moonset: opt_text(self.moonset),
            moon_phase: opt_text(self.moon_phase),
            unit: self.unit,
        }
    }
}

impl DeepView for DailyWeather {
    type V = DailyWeatherView;

    open spec fn deep_view(&self) -> DailyWeatherView {
        self@
    }
}

impl DailyWeatherView {
    /// The block of lines that shows the day, every unit in the system of
    /// the day. A measurement or a time that is absent has no line.
    pub open spec fn text(self) -> Seq<char> {
        "Daily Weather for "@ + self.date + ":\n"@ + measure_line(
            "Min Temp: "@,
            self.min_temp,
            self.unit.temp_label(),
        ) + measure_line("Max Temp: "@, self.max_temp, self.unit.temp_label()) + opt_measure_line(
            "Avg Temp: "@,
            self.avg_temp,
            self.unit.temp_label(),
        ) + opt_measure_line("Visibility: "@, self.visibility, self.unit.distance_suffix())
            + measure_line("Humidity: "@, self.humidity, "%"@) + opt_measure_line(
            "Pressure: "@,
            self.pressure,
            " hPa"@,
        ) + measure_line("Wind Speed: "@, self.wind_speed, self.unit.speed_suffix())
            + measure_line("UV Index: "@, self.uvi, ""@) + opt_measure_line(
            "Clouds: "@,
            self.clouds,
            "%"@,
        ) + text_line("Condition: "@, self.condition) + opt_measure_line(
            "Precipitation: "@,
            self.precip,
            self.unit.precip_suffix(),
        ) + opt_text_line("Sunrise: "@, self.sunrise) + opt_text_line("Sunset: "@, self.sunset)
            + opt_text_line("Moonrise: "@, self.moonrise) + opt_text_line(
            "Moonset: "@,
            self.moonset,
        ) + opt_text_line("Moon Phase: "@, self.moon_phase)
    }
}

impl DailyWeather {
    /// The block of lines that shows the day, each line ended.
    pub fn render(&self) -> (s: String)
        ensures
            s@ == self@.text(),
    {
        let mut out = String::from_str("Daily Weather for ");
        out.append(self.date.as_str());
        out.append(":\n");
        push_measure(&mut out, "Min Temp: ", self.min_temp, self.unit.temp_label_str());
        push_measure(&mut out, "Max Temp: ", self.max_temp, self.unit.temp_label_str());
        push_opt_measure(&mut out, "Avg Temp: ", self.avg_temp, self.unit.temp_label_str());
        push_opt_measure(
            &mut out,
            "Visibility: ",
            self.visibility,
            self.unit.distance_suffix_str(),
        );
        push_measure(&mut out, "Humidity: ", self.humidity, "%");
        push_opt_measure(&mut out, "Pressure: ", self.pressure, " hPa");
        push_measure(&mut out, "Wind Speed: ", self.wind_speed, self.unit.speed_suffix_str());
        push_measure(&mut out, "UV Index: ", self.uvi, "");
        push_opt_measure(&mut out, "Clouds: ", self.clouds, "%");
        push_text(&mut out, "Condition: ", self.condition.as_str());
        push_opt_measure(&mut out, "Precipitation: ", self.precip, self.unit.precip_suffix_str());
        push_opt_text(&mut out, "Sunrise: ", &self.sunrise);
        push_opt_text(&mut out, "Sunset: ", &self.sunset);
        push_opt_text(&mut out, "Moonrise: ", &self.moonrise);
        push_opt_text(&mut out, "Moonset: ", &self.moonset);
        push_opt_text(&mut out, "Moon Phase: ", &self.moon_phase);
        out
    }
}

/// A forecast, in one of its three shapes.
#[derive(Debug)]
pub enum Weather {
    /// The weather at this moment.
    Current(CurrentWeather),
    /// The coming hours, the earliest first.
    Today(Vec<HourWeather>),
    /// The coming days, the earliest first.
    Daily(Vec<DailyWeather>),
}

/// What a `Weather` holds.
pub enum WeatherView {
    Current(CurrentWeatherView),
    Today(Seq<HourWeatherView>),
    Daily(Seq<DailyWeatherView>),
}

impl View for Weather {
    type V = WeatherView;

    open spec fn view(&self) -> WeatherView {
        match self {
            Weather::Current(w) => WeatherView::Current(w@),
            Weather::Today(hours) => WeatherView::Today(hours.deep_view()),
            Weather::Daily(days) => WeatherView::Daily(days.deep_view()),
        }
    }
}

/// The blocks of the hours one after another, an empty line after each.
pub open spec fn hours_text(hours: Seq<HourWeatherView>) -> Seq<char>
    decreases hours.len(),
{
    if hours.len() == 0 {
        Seq::empty()
    } else {
        hours_text(hours.drop_last()) + hours.last().text() + "\n\n"@
    }
}

/// The blocks of the days one after another, an empty line after each.
pub open spec fn days_text(days: Seq<DailyWeatherView>) -> Seq<char>
    decreases days.len(),
{
    if days.len() == 0 {
        Seq::empty()
    } else {
        days_text(days.drop_last()) + days.last().text() + "\n\n"@
    }
}

impl WeatherView {
    /// Everything that is shown of the forecast.
    pub open spec fn text(self) -> Seq<char> {
        match self {
            WeatherView::Current(w) => w.text() + "\n"@,
            WeatherView::Today(hours) => hours_text(hours),
            WeatherView::Daily(days) => days_text(days),
        }
    }
}

impl Weather {
    /// Everything that is shown of the forecast: the one block, or a block
    /// for every hour or day with an empty line after it.
    pub fn render(&self) -> (s: String)
        ensures
            s@ == self@.text(),
    {
        match self {
            Weather::Current(w) => {
                let mut out = w.render();
                out.append("\n");
                out
            },
            Weather::Today(hours) => {
                let mut out = String::new();
                let mut i: usize = 0;
                let ghost all = hours.deep_view();
                proof {
                    assert(all.take(0) =~= Seq::<HourWeatherView>::empty());
                }
                while i < hours.len()
                    invariant
                        i <= hours.len(),
                        all == hours.deep_view(),
                        out@ == hours_text(all.take(i as int)),
                    decreases hours.len() - i,
                {
                    proof {
                        assert(all.take(i + 1).drop_last() =~= all.take(i as int));
                        assert(all.take(i + 1).last() == hours[i as int]@);
                    }
                    let block = hours[i].render();
                    out.append(block.as_str());
                    out.append("\n\n");
                    i += 1;
                }
                assert(all.take(i as int) =~= all);
                out
            },
            Weather::Daily(days) => {
                let mut out = String::new();
                let mut i: usize = 0;
                let ghost all = days.deep_view();
                proof {
                    assert(all.take(0) =~= Seq::<DailyWeatherView>::empty());
                }
                while i < days.len()
                    invariant
                        i <= days.len(),
                        all == days.deep_view(),
                        out@ == days_text(all.take(i as int)),
                    decreases days.len() - i,
                {
                    proof {
                        assert(all.take(i + 1).drop_last() =~= all.take(i as int));
                        assert(all.take(i + 1).last() == days[i as int]@);
                    }
                    let block = days[i].render();
                    out.append(block.as_str());
                    out.append("\n\n");
                    i += 1;
                }
                assert(all.take(i as int) =~= all);
                out
            },
        }
    }
}

} // verus!
