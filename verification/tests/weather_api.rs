use weather::decimal::Decimal;
use weather::providers::starts_in_time;
use weather::providers::weather_api::assemble_day as api_day;
use weather::providers::weather_api::assemble_hour as api_hour;
use weather::providers::weather_api::parse_forecast_time;
use weather::providers::weather_api::pick_for;
use weather::providers::weather_api::select_upcoming as api_upcoming;
use weather::providers::weather_api::wind_speed_for;
use weather::providers::weather_api::Astro;
use weather::providers::weather_api::Condition;
use weather::providers::weather_api::Current;
use weather::providers::weather_api::Day;
use weather::providers::weather_api::Forecast;
use weather::providers::weather_api::ForecastDay;
use weather::providers::weather_api::Hour;
use weather::providers::weather_api::WeatherApi;
use weather::providers::weather_api::WeatherData as ApiData;
use weather::providers::Provider;
use weather::weather::Coordinates;
use weather::weather::ForecastTime;
use weather::weather::UnitType;
use weather::weather::Weather;

const MIDNIGHT: i64 = 1_717_200_000;

fn dec(value: f64) -> Decimal {
    Decimal { micros: (value * 1_000_000.0).round() as i64 }
}

fn api_current() -> Current {
    Current {
        temp_c: dec(20.0),
        temp_f: dec(68.0),
        condition: Condition { text: "Sunny".to_string() },
        wind_mph: dec(8.1),
        wind_kph: dec(36.0),
        wind_degree: 180,
        pressure_mb: dec(1015.0),
        precip_mm: dec(2.54),
        precip_in: dec(0.1),
        humidity: dec(50.0),
        cloud: dec(25.0),
        feelslike_c: dec(21.0),
        feelslike_f: dec(69.8),
        vis_km: dec(10.0),
        vis_miles: dec(6.0),
        uv: dec(6.0),
    }
}

fn api_raw_hour(epoch: i64, label: &str) -> Hour {
    Hour {
        time_epoch: epoch,
        time: label.to_string(),
        temp_c: dec(20.0),
        temp_f: dec(68.0),
        condition: Condition { text: "Cloudy".to_string() },
        wind_mph: dec(5.0),
        wind_kph: dec(7.2),
        wind_degree: 45,
        pressure_mb: dec(1009.0),
        precip_mm: dec(0.0),
        precip_in: dec(0.0),
        humidity: dec(70.0),
        cloud: dec(80.0),
        feelslike_c: dec(19.0),
        feelslike_f: dec(66.2),
        vis_km: dec(9.0),
        vis_miles: dec(5.0),
        uv: dec(1.0),
    }
}

fn api_raw_day(index: i64, first_hour: i64, hours: i64) -> ForecastDay {
    ForecastDay {
        date: format!("2024-06-0{}", index + 1),
        day: Day {
            maxtemp_c: dec(25.0),
            maxtemp_f: dec(77.0),
            mintemp_c: dec(10.0),
            mintemp_f: dec(50.0),
            maxwind_mph: dec(11.2),
            maxwind_kph: dec(18.0),
            totalprecip_mm: dec(5.08),
            totalprecip_in: dec(0.2),
            avghumidity: dec(62.0),
            condition: Condition { text: "Patchy rain".to_string() },
            uv: dec(4.0),
        },
        astro: Astro {
            sunrise: "05:10 AM".to_string(),
            sunset: "09:01 PM".to_string(),
            moonrise: "01:22 AM".to_string(),
            moonset: "02:45 PM".to_string(),
            moon_phase: "Waning Crescent".to_string(),
        },
        hour: (0..hours)
            .map(|k| api_raw_hour(first_hour + k * 3_600, &format!("d{}h{}", index, k)))
            .collect(),
    }
}

fn api_answer(days: Vec<ForecastDay>) -> ApiData {
    ApiData { current: api_current(), forecast: Forecast { forecastday: days } }
}

#[test]
fn the_days_to_ask_for_follow_from_the_time_range() {
    assert_eq!(parse_forecast_time(&ForecastTime::Now), 1);
    assert_eq!(parse_forecast_time(&ForecastTime::Hours24), 2);
    assert_eq!(parse_forecast_time(&ForecastTime::Days3), 3);
    assert_eq!(parse_forecast_time(&ForecastTime::Days5), 5);
}

#[test]
fn a_number_is_picked_not_converted() {
    assert_eq!(pick_for(UnitType::Metric, dec(20.0), dec(68.0)), dec(20.0));
    assert_eq!(pick_for(UnitType::Imperial, dec(20.0), dec(68.0)), dec(68.0));
    assert_eq!(pick_for(UnitType::Imperial, dec(20.0), dec(1.0)), dec(1.0));
}

#[test]
fn imperial_temperature_is_the_fahrenheit_field() {
    let h = api_raw_hour(MIDNIGHT, "2024-06-01 00:00");
    let hour = api_hour(&h, UnitType::Imperial);
    assert_eq!(hour.temp, dec(68.0));
    assert_eq!(hour.temp.micros, 68_000_000);
    let hour = api_hour(&h, UnitType::Metric);
    assert_eq!(hour.temp, dec(20.0));
}

#[test]
fn metric_wind_speed_comes_from_kilometres_an_hour() {
    assert_eq!(wind_speed_for(UnitType::Metric, dec(36.0), dec(22.4)), dec(10.0));
    assert_eq!(wind_speed_for(UnitType::Imperial, dec(36.0), dec(22.4)), dec(22.4));
    assert_eq!(wind_speed_for(UnitType::Metric, dec(10.0), dec(6.2)).micros, 2_777_778);
}

#[test]
fn an_hour_in_both_systems() {
    let h = api_raw_hour(MIDNIGHT, "2024-06-01 00:00");
    let metric = api_hour(&h, UnitType::Metric);
    assert_eq!(metric.time, "2024-06-01 00:00");
    assert_eq!(metric.feels_like, dec(19.0));
    assert_eq!(metric.visibility, dec(9.0));
    assert_eq!(metric.clouds, dec(80.0));
    assert_eq!(metric.humidity, dec(70.0));
    assert_eq!(metric.pressure, dec(1009.0));
    assert_eq!(metric.wind_speed, dec(2.0));
    assert_eq!(metric.wind_deg, dec(45.0));
    assert_eq!(metric.uvi, dec(1.0));
    assert_eq!(metric.condition, "Cloudy");
    assert_eq!(metric.precip, Some(dec(0.0)));
    assert_eq!(metric.unit, UnitType::Metric);
    let imperial = api_hour(&h, UnitType::Imperial);
    assert_eq!(imperial.feels_like, dec(66.2));
    assert_eq!(imperial.visibility, dec(5.0));
    assert_eq!(imperial.wind_speed, dec(5.0));
    assert_eq!(imperial.precip, Some(dec(0.0)));
    assert_eq!(imperial.unit, UnitType::Imperial);
}

#[test]
fn a_day_in_both_systems() {
    let d = api_raw_day(0, MIDNIGHT, 0);
    let metric = api_day(&d, UnitType::Metric);
    assert_eq!(metric.date, "2024-06-01");
    assert_eq!(metric.min_temp, dec(10.0));
    assert_eq!(metric.max_temp, dec(25.0));
    assert_eq!(metric.avg_temp, None);
    assert_eq!(metric.visibility, None);
    assert_eq!(metric.humidity, dec(62.0));
    assert_eq!(metric.pressure, None);
    assert_eq!(metric.wind_speed, dec(5.0));
    assert_eq!(metric.uvi, dec(4.0));
    assert_eq!(metric.clouds, None);
    assert_eq!(metric.condition, "Patchy rain");
    assert_eq!(metric.precip, Some(dec(5.08)));
    assert_eq!(metric.sunrise, Some("05:10 AM".to_string()));
    assert_eq!(metric.sunset, Some("09:01 PM".to_string()));
    assert_eq!(metric.moonrise, Some("01:22 AM".to_string()));
    assert_eq!(metric.moonset, Some("02:45 PM".to_string()));
    assert_eq!(metric.moon_phase, Some("Waning Crescent".to_string()));
    let imperial = api_day(&d, UnitType::Imperial);
    assert_eq!(imperial.min_temp, dec(50.0));
    assert_eq!(imperial.max_temp, dec(77.0));
    assert_eq!(imperial.wind_speed, dec(11.2));
    assert_eq!(imperial.precip, Some(dec(0.2)));
}

#[test]
fn the_current_weather_in_both_systems() {
    let metric = api_answer(vec![api_raw_day(0, MIDNIGHT, 0)]).parse_to_current(UnitType::Metric);
    assert_eq!(metric.temp, dec(20.0));
    assert_eq!(metric.feels_like, dec(21.0));
    assert_eq!(metric.visibility, dec(10.0));
    assert_eq!(metric.clouds, dec(25.0));
    assert_eq!(metric.humidity, dec(50.0));
    assert_eq!(metric.pressure, dec(1015.0));
    assert_eq!(metric.wind_speed, dec(10.0));
    assert_eq!(metric.wind_deg, dec(180.0));
    assert_eq!(metric.uvi, dec(6.0));
    assert_eq!(metric.sunrise, Some("05:10 AM".to_string()));
    assert_eq!(metric.sunset, Some("09:01 PM".to_string()));
    assert_eq!(metric.condition, "Sunny");
    assert_eq!(metric.precip, Some(dec(2.54)));
    let imperial =
        api_answer(vec![api_raw_day(0, MIDNIGHT, 0)]).parse_to_current(UnitType::Imperial);
    assert_eq!(imperial.temp, dec(68.0));
    assert_eq!(imperial.feels_like, dec(69.8));
    assert_eq!(imperial.visibility, dec(6.0));
    assert_eq!(imperial.wind_speed, dec(8.1));
    assert_eq!(imperial.precip, Some(dec(0.1)));
    assert_eq!(imperial.unit, UnitType::Imperial);
}

#[test]
fn without_a_day_the_current_weather_has_no_sunrise() {
    let w = api_answer(vec![]).parse_to_current(UnitType::Metric);
    assert_eq!(w.sunrise, None);
    assert_eq!(w.sunset, None);
}

#[test]
fn an_hour_counts_from_less_than_an_hour_ago() {
    assert!(starts_in_time(1_000, 1_000));
    assert!(starts_in_time(1_000, 4_599));
    assert!(!starts_in_time(1_000, 4_600));
    assert!(starts_in_time(i64::MAX, i64::MIN));
    assert!(!starts_in_time(i64::MIN, i64::MAX));
}

#[test]
fn of_two_days_of_hours_the_24_from_now_are_taken() {
    let now = MIDNIGHT + 7_200;
    let days = vec![api_raw_day(0, MIDNIGHT, 24), api_raw_day(1, MIDNIGHT + 86_400, 24)];
    let picked: Vec<i64> = api_upcoming(&days, now).iter().map(|h| h.time_epoch).collect();
    let expected: Vec<i64> = (0..24).map(|k| now + k * 3_600).collect();
    assert_eq!(picked, expected);
    let list = api_answer(days).parse_to_today(now, UnitType::Imperial);
    assert_eq!(list.len(), 24);
    assert_eq!(list[0].time, "d0h2");
    assert_eq!(list[21].time, "d0h23");
    assert_eq!(list[22].time, "d1h0");
    assert_eq!(list[23].time, "d1h1");
    assert_eq!(list[0].temp, dec(68.0));
}

#[test]
fn late_in_the_second_day_fewer_hours_are_left() {
    let now = MIDNIGHT + 86_400 + 20 * 3_600 + 1_800;
    let days = vec![api_raw_day(0, MIDNIGHT, 24), api_raw_day(1, MIDNIGHT + 86_400, 24)];
    let list = api_answer(days).parse_to_today(now, UnitType::Metric);
    let times: Vec<String> = list.iter().map(|h| h.time.clone()).collect();
    assert_eq!(times, vec!["d1h20", "d1h21", "d1h22", "d1h23"]);
    let list = api_answer(vec![]).parse_to_today(now, UnitType::Metric);
    assert!(list.is_empty());
    let list =
        api_answer(vec![api_raw_day(0, MIDNIGHT, 0)]).parse_to_today(now, UnitType::Metric);
    assert!(list.is_empty());
}

#[test]
fn five_days_asked_of_an_answer_with_three_gives_three() {
    let days: Vec<ForecastDay> = (0..3).map(|k| api_raw_day(k, MIDNIGHT + k * 86_400, 1)).collect();
    let list = api_answer(days).parse_to_days(5, UnitType::Metric);
    assert_eq!(list.len(), 3);
    assert_eq!(list[0].date, "2024-06-01");
    assert_eq!(list[2].date, "2024-06-03");
}

#[test]
fn three_days_asked_of_an_answer_with_five_gives_the_first_three() {
    let days: Vec<ForecastDay> = (0..5).map(|k| api_raw_day(k, MIDNIGHT + k * 86_400, 1)).collect();
    let list = api_answer(days).parse_to_days(3, UnitType::Imperial);
    let dates: Vec<String> = list.iter().map(|d| d.date.clone()).collect();
    assert_eq!(dates, vec!["2024-06-01", "2024-06-02", "2024-06-03"]);
    assert_eq!(list[0].max_temp, dec(77.0));
}

#[test]
fn the_provider_is_asked_for_the_days_of_the_time_range() {
    let provider = match WeatherApi::new("key-2".to_string()) {
        Ok(p) => p,
        Err(_) => panic!("the provider's address did not parse"),
    };
    assert_eq!(provider.key, "key-2");
    assert_eq!(provider.address, "https://api.weatherapi.com/v1/forecast.json");
    let coord = Coordinates { lat: dec(-33.5), lon: dec(151.0) };
    let request = provider.request(coord, ForecastTime::Hours24, UnitType::Metric);
    assert_eq!(request.url, "https://api.weatherapi.com/v1/forecast.json");
    let expected: Vec<(String, String)> = vec![
        ("q".to_string(), "-33.5,151".to_string()),
        ("key".to_string(), "key-2".to_string()),
        ("days".to_string(), "2".to_string()),
        ("alerts".to_string(), "yes".to_string()),
    ];
    assert_eq!(request.query, expected);
    let request = provider.request(coord, ForecastTime::Days5, UnitType::Imperial);
    assert_eq!(request.query[2], ("days".to_string(), "5".to_string()));
    let request = provider.request(coord, ForecastTime::Now, UnitType::Imperial);
    assert_eq!(request.query[2], ("days".to_string(), "1".to_string()));
}

#[test]
fn this_provider_is_made_of_what_came_of_writing_its_address() {
    let written = url::Url::parse("https://example.org/base").map(String::from);
    match WeatherApi::with_address(written, "k".to_string()) {
        Ok(p) => {
            assert_eq!(p.address, "https://example.org/base");
            assert_eq!(p.key, "k");
            let coord = Coordinates { lat: dec(1.0), lon: dec(2.0) };
            let request = p.request(coord, ForecastTime::Now, UnitType::Metric);
            assert_eq!(request.url, "https://example.org/base");
        }
        Err(_) => panic!("an address that was written was refused"),
    }
    let failed = url::Url::parse("no address").map(String::from);
    assert!(matches!(
        WeatherApi::with_address(failed, "k".to_string()),
        Err(weather::errors::AppError::UrlParse(url::ParseError::RelativeUrlWithoutBase))
    ));
}

#[test]
fn the_time_range_decides_what_is_read_of_this_answer() {
    let provider = match WeatherApi::new("key-2".to_string()) {
        Ok(p) => p,
        Err(_) => panic!("the provider's address did not parse"),
    };
    let build = || {
        api_answer((0..5).map(|k| api_raw_day(k, MIDNIGHT + k * 86_400, 24)).collect())
    };
    match provider.interpret_at(build(), MIDNIGHT, ForecastTime::Now, UnitType::Imperial) {
        Ok(Weather::Current(w)) => assert_eq!(w.temp, dec(68.0)),
        _ => panic!("no current weather came of the answer"),
    }
    match provider.interpret_at(build(), MIDNIGHT, ForecastTime::Hours24, UnitType::Metric) {
        Ok(Weather::Today(hours)) => assert_eq!(hours.len(), 24),
        _ => panic!("no hours came of the answer"),
    }
    match provider.interpret_at(build(), MIDNIGHT, ForecastTime::Days3, UnitType::Metric) {
        Ok(Weather::Daily(days)) => assert_eq!(days.len(), 3),
        _ => panic!("no days came of the answer"),
    }
    match provider.interpret_at(build(), MIDNIGHT, ForecastTime::Days5, UnitType::Metric) {
        Ok(Weather::Daily(days)) => assert_eq!(days.len(), 5),
        _ => panic!("no days came of the answer"),
    }
}
