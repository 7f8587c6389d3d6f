use weather::decimal::Decimal;
use weather::errors::AppError;
use weather::errors::CoordinatesError;
use weather::weather::cardinal_dir_from;
use weather::weather::Coordinates;
use weather::weather::CurrentWeather;
use weather::weather::DailyWeather;
use weather::weather::HourWeather;
use weather::weather::Place;
use weather::weather::PlaceTag;
use weather::weather::Provider;
use weather::weather::ProviderCredentials;
use weather::weather::UnitType;
use weather::weather::Weather;

fn dec(value: f64) -> Decimal {
    Decimal { micros: (value * 1_000_000.0).round() as i64 }
}

fn at(lat: f64, lon: f64) -> Coordinates {
    Coordinates { lat: dec(lat), lon: dec(lon) }
}

fn current(unit: UnitType) -> CurrentWeather {
    CurrentWeather {
        temp: dec(20.5),
        feels_like: dec(19.0),
        visibility: dec(10.0),
        clouds: dec(75.0),
        humidity: dec(60.0),
        pressure: dec(1013.0),
        wind_speed: dec(3.6),
        wind_deg: dec(270.0),
        uvi: dec(5.43),
        sunrise: Some("05:12".to_string()),
        sunset: Some("21:03".to_string()),
        condition: "light rain".to_string(),
        precip: Some(dec(0.25)),
        unit,
    }
}

fn hour(unit: UnitType) -> HourWeather {
    HourWeather {
        time: "2024-06-01 14:00".to_string(),
        temp: dec(-3.456),
        feels_like: dec(-7.0),
        visibility: dec(6.2),
        clouds: dec(100.0),
        humidity: dec(93.0),
        pressure: dec(998.4),
        wind_speed: dec(12.0),
        wind_deg: dec(45.0),
        uvi: dec(0.0),
        condition: "snow".to_string(),
        precip: None,
        unit,
    }
}

fn day(unit: UnitType) -> DailyWeather {
    DailyWeather {
        date: "2024-06-01".to_string(),
        min_temp: dec(11.0),
        max_temp: dec(23.5),
        avg_temp: None,
        visibility: None,
        humidity: dec(55.0),
        pressure: Some(dec(1020.0)),
        wind_speed: dec(4.2),
        uvi: dec(7.0),
        clouds: Some(dec(10.0)),
        condition: "clear sky".to_string(),
        precip: None,
        sunrise: Some("05:12".to_string()),
        sunset: Some("21:03".to_string()),
        moonrise: Some("01:40".to_string()),
        moonset: Some("14:55".to_string()),
        moon_phase: Some("0.25".to_string()),
        unit,
    }
}

#[test]
fn positions_on_the_globe_are_accepted() {
    assert!(at(49.84, 24.03).validate().is_ok());
    assert!(at(0.0, 0.0).validate().is_ok());
    assert!(at(90.0, 180.0).validate().is_ok());
    assert!(at(-90.0, -180.0).validate().is_ok());
}

#[test]
fn latitude_out_of_range_is_named_with_its_value() {
    let r = at(90.000001, 10.0).validate();
    assert!(matches!(
        r,
        Err(AppError::Coordinates(CoordinatesError::Latitude(Decimal { micros: 90_000_001 })))
    ));
    let r = at(-91.0, 10.0).validate();
    assert!(matches!(
        r,
        Err(AppError::Coordinates(CoordinatesError::Latitude(Decimal { micros: -91_000_000 })))
    ));
}

#[test]
fn longitude_out_of_range_is_named_with_its_value() {
    let r = at(10.0, 180.000001).validate();
    assert!(matches!(
        r,
        Err(AppError::Coordinates(CoordinatesError::Longitude(Decimal { micros: 180_000_001 })))
    ));
    let r = at(10.0, -200.5).validate();
    assert!(matches!(
        r,
        Err(AppError::Coordinates(CoordinatesError::Longitude(Decimal { micros: -200_500_000 })))
    ));
}

#[test]
fn latitude_is_looked_at_before_longitude() {
    let r = at(100.0, 300.0).validate();
    assert!(matches!(
        r,
        Err(AppError::Coordinates(CoordinatesError::Latitude(Decimal { micros: 100_000_000 })))
    ));
}

#[test]
fn bearings_have_names() {
    assert_eq!(cardinal_dir_from(dec(0.0)), "North");
    assert_eq!(cardinal_dir_from(dec(22.999)), "North");
    assert_eq!(cardinal_dir_from(dec(23.0)), "Northeast");
    assert_eq!(cardinal_dir_from(dec(67.5)), "Northeast");
    assert_eq!(cardinal_dir_from(dec(68.0)), "East");
    assert_eq!(cardinal_dir_from(dec(112.0)), "East");
    assert_eq!(cardinal_dir_from(dec(113.0)), "Southeast");
    assert_eq!(cardinal_dir_from(dec(157.0)), "Southeast");
    assert_eq!(cardinal_dir_from(dec(158.0)), "South");
    assert_eq!(cardinal_dir_from(dec(202.0)), "South");
    assert_eq!(cardinal_dir_from(dec(203.0)), "Southwest");
    assert_eq!(cardinal_dir_from(dec(247.0)), "Southwest");
    assert_eq!(cardinal_dir_from(dec(248.0)), "West");
    assert_eq!(cardinal_dir_from(dec(292.0)), "West");
    assert_eq!(cardinal_dir_from(dec(293.0)), "Northwest");
    assert_eq!(cardinal_dir_from(dec(337.0)), "Northwest");
    assert_eq!(cardinal_dir_from(dec(338.0)), "North");
    assert_eq!(cardinal_dir_from(dec(359.9)), "North");
}

#[test]
fn bearings_turn_into_the_circle() {
    assert_eq!(cardinal_dir_from(dec(360.0)), "North");
    assert_eq!(cardinal_dir_from(dec(450.0)), "East");
    assert_eq!(cardinal_dir_from(dec(-90.0)), "North");
    assert_eq!(cardinal_dir_from(Decimal { micros: i64::MAX }), "West");
}

#[test]
fn current_weather_in_metric_units() {
    let expected = "Current Weather:\n\
        Temperature: 20.50 °C\n\
        Feels Like: 19.00 °C\n\
        Visibility: 10.00 km\n\
        Clouds: 75.00%\n\
        Humidity: 60.00%\n\
        Pressure: 1013.00 hPa\n\
        Wind Speed: 3.60 m/s\n\
        Wind Direction: West\n\
        UV Index: 5.43\n\
        Sunrise: 05:12\n\
        Sunset: 21:03\n\
        Condition: light rain\n\
        Precipitation: 0.25 mm\n";
    assert_eq!(current(UnitType::Metric).render(), expected);
}

#[test]
fn current_weather_in_imperial_units_without_what_is_absent() {
    let mut w = current(UnitType::Imperial);
    w.sunrise = None;
    w.sunset = None;
    w.precip = None;
    let expected = "Current Weather:\n\
        Temperature: 20.50 °F\n\
        Feels Like: 19.00 °F\n\
        Visibility: 10.00 mi\n\
        Clouds: 75.00%\n\
        Humidity: 60.00%\n\
        Pressure: 1013.00 hPa\n\
        Wind Speed: 3.60 mph\n\
        Wind Direction: West\n\
        UV Index: 5.43\n\
        Condition: light rain\n";
    assert_eq!(w.render(), expected);
}

#[test]
fn an_hour_in_metric_units() {
    let expected = "Time: 2024-06-01 14:00\n\
        Temperature: -3.46 °C\n\
        Feels Like: -7.00 °C\n\
        Visibility: 6.20 km\n\
        Clouds: 100.00%\n\
        Humidity: 93.00%\n\
        Pressure: 998.40 hPa\n\
        Wind Speed: 12.00 m/s\n\
        Wind Direction: Northeast\n\
        UV Index: 0.00\n\
        Condition: snow\n";
    assert_eq!(hour(UnitType::Metric).render(), expected);
}

#[test]
fn an_hour_in_imperial_units_with_precipitation() {
    let mut h = hour(UnitType::Imperial);
    h.precip = Some(dec(0.1));
    let expected = "Time: 2024-06-01 14:00\n\
        Temperature: -3.46 °F\n\
        Feels Like: -7.00 °F\n\
        Visibility: 6.20 mi\n\
        Clouds: 100.00%\n\
        Humidity: 93.00%\n\
        Pressure: 998.40 hPa\n\
        Wind Speed: 12.00 mph\n\
        Wind Direction: Northeast\n\
        UV Index: 0.00\n\
        Condition: snow\n\
        Precipitation: 0.10 inches\n";
    assert_eq!(h.render(), expected);
}

#[test]
fn a_day_with_some_measurements_absent() {
    let expected = "Daily Weather for 2024-06-01:\n\
        Min Temp: 11.00°C\n\
        Max Temp: 23.50°C\n\
        Humidity: 55.00%\n\
        Pressure: 1020.00 hPa\n\
        Wind Speed: 4.20 m/s\n\
        UV Index: 7.00\n\
        Clouds: 10.00%\n\
        Condition: clear sky\n\
        Sunrise: 05:12\n\
        Sunset: 21:03\n\
        Moonrise: 01:40\n\
        Moonset: 14:55\n\
        Moon Phase: 0.25\n";
    assert_eq!(day(UnitType::Metric).render(), expected);
}

#[test]
fn a_day_with_every_line() {
    let mut d = day(UnitType::Imperial);
    d.avg_temp = Some(dec(17.25));
    d.visibility = Some(dec(9.0));
    d.precip = Some(dec(1.5));
    let expected = "Daily Weather for 2024-06-01:\n\
        Min Temp: 11.00°F\n\
        Max Temp: 23.50°F\n\
        Avg Temp: 17.25°F\n\
        Visibility: 9.00 mi\n\
        Humidity: 55.00%\n\
        Pressure: 1020.00 hPa\n\
        Wind Speed: 4.20 mph\n\
        UV Index: 7.00\n\
        Clouds: 10.00%\n\
        Condition: clear sky\n\
        Precipitation: 1.50 inches\n\
        Sunrise: 05:12\n\
        Sunset: 21:03\n\
        Moonrise: 01:40\n\
        Moonset: 14:55\n\
        Moon Phase: 0.25\n";
    assert_eq!(d.render(), expected);
}

#[test]
fn the_precipitation_of_a_day_is_labelled_in_its_units() {
    let mut d = day(UnitType::Imperial);
    d.precip = Some(dec(0.5));
    assert!(d.render().contains("Precipitation: 0.50 inches\n"));
    assert!(!d.render().contains(" mm"));
    let mut d = day(UnitType::Metric);
    d.precip = Some(dec(0.5));
    assert!(d.render().contains("Precipitation: 0.50 mm\n"));
    assert!(!d.render().contains("inches"));
}

#[test]
fn a_day_with_nothing_optional() {
    let mut d = day(UnitType::Metric);
    d.pressure = None;
    d.clouds = None;
    d.sunrise = None;
    d.sunset = None;
    d.moonrise = None;
    d.moonset = None;
    d.moon_phase = None;
    let expected = "Daily Weather for 2024-06-01:\n\
        Min Temp: 11.00°C\n\
        Max Temp: 23.50°C\n\
        Humidity: 55.00%\n\
        Wind Speed: 4.20 m/s\n\
        UV Index: 7.00\n\
        Condition: clear sky\n";
    assert_eq!(d.render(), expected);
}

#[test]
fn a_forecast_shows_every_block_with_an_empty_line_after() {
    let one = Weather::Current(current(UnitType::Metric));
    assert_eq!(one.render(), format!("{}\n", current(UnitType::Metric).render()));
    let hours = Weather::Today(vec![hour(UnitType::Metric), hour(UnitType::Imperial)]);
    assert_eq!(
        hours.render(),
        format!("{}\n\n{}\n\n", hour(UnitType::Metric).render(), hour(UnitType::Imperial).render())
    );
    let days = Weather::Daily(vec![day(UnitType::Metric)]);
    assert_eq!(days.render(), format!("{}\n\n", day(UnitType::Metric).render()));
    assert_eq!(Weather::Today(vec![]).render(), "");
    assert_eq!(Weather::Daily(vec![]).render(), "");
}

#[test]
fn a_place_shows_its_tag_and_position() {
    let place = Place { tag: PlaceTag { tag: "home".to_string() }, coordinates: at(49.84, 24.03) };
    assert_eq!(place.render(), "Place: home\nCoordinates: (lat: 49.84, lon: 24.03)\n");
    let whole = Place { tag: PlaceTag { tag: "pole".to_string() }, coordinates: at(-90.0, 0.0) };
    assert_eq!(whole.render(), "Place: pole\nCoordinates: (lat: -90, lon: 0)\n");
}

#[test]
fn places_are_the_same_by_tag_alone() {
    let a = Place { tag: PlaceTag { tag: "home".to_string() }, coordinates: at(49.84, 24.03) };
    let b = Place { tag: PlaceTag { tag: "home".to_string() }, coordinates: at(1.0, 2.0) };
    let c = Place { tag: PlaceTag { tag: "Home".to_string() }, coordinates: at(49.84, 24.03) };
    assert!(a == b);
    assert!(a != c);
    assert!(a.tag.same(&b.tag));
    assert!(!a.tag.same(&c.tag));
}

#[test]
fn copies_hold_what_was_copied() {
    let a = Place { tag: PlaceTag { tag: "home".to_string() }, coordinates: at(49.84, 24.03) };
    let b = a.clone();
    assert_eq!(b.tag.tag, "home");
    assert_eq!(b.coordinates, at(49.84, 24.03));
    let p = Provider::WeatherApi(ProviderCredentials { key: "k1".to_string() });
    match p.clone() {
        Provider::WeatherApi(creds) => assert_eq!(creds.key, "k1"),
        Provider::OpenWeather(_) => panic!("another provider came out of the copy"),
    }
}

#[test]
fn providers_and_units_have_names() {
    let creds = ProviderCredentials { key: "secret".to_string() };
    assert_eq!(Provider::OpenWeather(creds.clone()).name(), "Open Weather");
    assert_eq!(Provider::WeatherApi(creds).name(), "Weather API");
    assert_eq!(UnitType::Metric.name(), "Metric");
    assert_eq!(UnitType::Imperial.name(), "Imperial");
}
