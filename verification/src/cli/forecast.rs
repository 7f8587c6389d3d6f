//! Asking for a forecast: what is asked of whom, and what is shown.

use vstd::prelude::*;
use vstd::string::StringExecFns;
use crate::config::WeatherConfig;
use crate::errors::AppError;
use crate::providers::open_weather;
use crate::providers::weather_api;
use crate::providers::Provider as _;
use crate::providers::Request;
use crate::weather::Coordinates;
use crate::weather::ForecastTime;
use crate::weather::Location;
use crate::weather::Provider;
use crate::weather::UnitType;
use crate::weather::Weather;
use crate::weather::WeatherView;

verus! {

/// What a forecast is asked for.
#[derive(Debug)]
pub struct ForecastArgs {
    /// The place.
    pub location: Location,
    /// The time range.
    pub time: ForecastTime,
    /// The units.
    pub unit: UnitType,
}

/// One call to a provider, and how its answer is to be read.
#[derive(Debug)]
pub struct ForecastCall {
    /// The provider that is asked.
    pub provider: Provider,
    /// What it is asked.
    pub request: Request,
    /// The time range to read from the answer.
    pub time: ForecastTime,
    /// The units to read the answer in.
    pub unit: UnitType,
}

/// The address that a provider is asked at, if its address is a URL: the
/// path of its forecast call under its own address.
pub open spec fn endpoint_of(provider: Provider) -> Option<Seq<char>> {
    match provider {
        Provider::OpenWeather(_) => open_weather::endpoint(),
        Provider::WeatherApi(_) => weather_api::endpoint(),
    }
}

/// The parameters that a provider is asked with.
pub open spec fn query_for(
    provider: Provider,
    coord: Coordinates,
    time: ForecastTime,
    unit: UnitType,
) -> Seq<(Seq<char>, Seq<char>)> {
    match provider {
        Provider::OpenWeather(creds) => open_weather::query_of(coord, creds.key@, unit),
        Provider::WeatherApi(creds) => weather_api::query_of(coord, creds.key@, time),
    }
}

/// The position that a forecast is asked for. One that was typed in must
/// lie on the globe; a saved place was looked at when it was saved. A tag
/// that is not saved leads nowhere.
pub open spec fn located(config: WeatherConfig, location: Location) -> Result<
    Option<Coordinates>,
    AppError,
> {
    match location {
        Location::Coordinates(coord) => match coord.validation() {
            Ok(()) => Ok(Some(coord)),
            Err(e) => Err(e),
        },
        Location::Place(tag) => if config.places@.dom().contains(tag@) {
            Ok(Some(config.places@[tag@]))
        } else {
            Ok(None)
        },
    }
}

/// Decides what is asked of whom. Without a provider nothing can be asked;
/// a provider whose address is no URL cannot be asked; a position off the
/// globe is refused; and a tag that is not saved leaves nothing to ask.
pub fn get_forecast(config: &WeatherConfig, args: ForecastArgs) -> (r: Result<
    Option<ForecastCall>,
    AppError,
>)
    requires
        config.wf(),
    ensures
        match config.provider {
            None => r matches Err(AppError::EmptyProvider),
            Some(provider) => if endpoint_of(provider) is None {
                r matches Err(AppError::UrlParse(_))
            } else {
                match located(*config, args.location) {
                    Err(e) => r matches Err(refusal) && refusal == e,
                    Ok(None) => r matches Ok(None),
                    Ok(Some(coord)) => {
                        &&& r matches Ok(Some(call))
                        &&& call.provider == provider
                        &&& call.time == args.time
                        &&& call.unit == args.unit
                        &&& Some(call.request.url@) == endpoint_of(provider)
                        &&& call.request.query.deep_view() == query_for(
                            provider,
                            coord,
                            args.time,
                            args.unit,
                        )
                    },
                }
            },
        },
{
    let provider = match &config.provider {
        Some(p) => p,
        None => {
            return Err(AppError::EmptyProvider);
        },
    };
    match provider {
        Provider::OpenWeather(creds) => {
            let adapter = match open_weather::OpenWeather::new(creds.key.clone()) {
                Ok(a) => a,
                Err(e) => {
                    return Err(e);
                },
            };
            let coord = match locate(config, &args.location) {
                Ok(Some(c)) => c,
                Ok(None) => {
                    return Ok(None);
                },
                Err(e) => {
                    return Err(e);
                },
            };
            let request = adapter.request(coord, args.time, args.unit);
            Ok(
                Some(
                    ForecastCall {
                        provider: provider.clone(),
                        request,
                        time: args.time,
                        unit: args.unit,
                    },
                ),
            )
        },
        Provider::WeatherApi(creds) => {
            let adapter = match weather_api::WeatherApi::new(creds.key.clone()) {
                Ok(a) => a,
                Err(e) => {
                    return Err(e);
                },
            };
            let coord = match locate(config, &args.location) {
                Ok(Some(c)) => c,
                Ok(None) => {
                    return Ok(None);
                },
                Err(e) => {
                    return Err(e);
                },
            };
            let request = adapter.request(coord, args.time, args.unit);
            Ok(
                Some(
                    ForecastCall {
                        provider: provider.clone(),
                        request,
                        time: args.time,
                        unit: args.unit,
                    },
                ),
            )
        },
    }
}

/// The position that a forecast is asked for: the one typed in, if it lies
/// on the globe, or the one saved under the tag, if one is.
pub fn locate(config: &WeatherConfig, location: &Location) -> (r: Result<
    Option<Coordinates>,
    AppError,
>)
    requires
        config.wf(),
    ensures
        r == located(*config, *location),
{
    match location {
        Location::Coordinates(coord) => match coord.validate() {
            Ok(()) => Ok(Some(*coord)),
            Err(e) => Err(e),
        },
        Location::Place(tag) => Ok(config.places.resolve(tag)),
    }
}

/// Everything that is shown of a forecast: who gave it, then the forecast.
pub open spec fn report_text(provider: Provider, weather: WeatherView) -> Seq<char> {
    "Weather provider: "@ + provider.name_text() + "\n"@ + weather.text()
}

/// Everything that is shown of a forecast.
pub fn forecast_report(provider: &Provider, weather: &Weather) -> (s: String)
    ensures
        s@ == report_text(*provider, weather@),
{
    let mut out = String::from_str("Weather provider: ");
    let name = provider.name();
    out.append(name.as_str());
    out.append("\n");
    let body = weather.render();
    out.append(body.as_str());
    out
}

} // verus!
