use weather::decimal::Decimal;
use weather::errors::AppError;
use weather::errors::CoordinatesError;

#[test]
fn a_latitude_is_told_with_its_value() {
    let e = CoordinatesError::Latitude(Decimal { micros: 90_500_000 });
    assert_eq!(
        e.message(),
        "Latitude must be between -90 and 90 degrees. You value is: 90.5"
    );
}

#[test]
fn a_longitude_is_told_with_its_value() {
    let e = CoordinatesError::Longitude(Decimal { micros: -181_000_000 });
    assert_eq!(
        e.message(),
        "Longitude must be between -180 and 180 degrees. Your value is: -181"
    );
}

#[test]
fn a_coordinate_failure_is_one_line() {
    let e = AppError::Coordinates(CoordinatesError::Latitude(Decimal { micros: 91_000_000 }));
    assert_eq!(
        e.message(),
        "Provided coordinate is incorrent, error: Latitude must be between -90 and 90 degrees. \
         You value is: 91\n"
    );
}

#[test]
fn a_time_failure_is_one_line() {
    let e = AppError::TimeParse("Failed to get UTC timestamp".to_string());
    assert_eq!(e.message(), "Failed to parse time: Failed to get UTC timestamp\n");
}

#[test]
fn a_missing_provider_is_one_line() {
    assert_eq!(AppError::EmptyProvider.message(), "Provider is not configured\n");
}

#[test]
fn a_url_failure_holds_what_the_parser_says() {
    let outside = url::Url::parse("not a url").unwrap_err();
    let said = outside.to_string();
    assert!(!said.is_empty());
    let e = AppError::from(outside);
    assert!(matches!(e, AppError::UrlParse(_)));
    assert_eq!(e.message(), format!("Url parse error: {}\n", said));
}

#[test]
fn a_config_failure_holds_what_the_store_says() {
    let outside = confy::ConfyError::BadConfigDirectory("nowhere".to_string());
    let e = AppError::from(outside);
    assert!(matches!(e, AppError::ConfigSetup(_)));
    assert_eq!(e.message(), "Config setup error: Bad configuration directory: nowhere\n");
}

#[test]
fn a_request_failure_holds_what_the_transport_says() {
    let outside = reqwest::Client::new().get("not a url").build().unwrap_err();
    let said = outside.to_string();
    assert!(!said.is_empty());
    let e = AppError::from(outside);
    assert!(matches!(e, AppError::ApiRequest(_)));
    assert_eq!(e.message(), format!("Api request error: {}\n", said));
}
