//! What can go wrong, and how it is told.

use vstd::prelude::*;
use vstd::string::StringExecFns;
use confy::ConfyError;
use reqwest::Error as ReqwestError;
use url::ParseError as UrlError;
use crate::decimal::Decimal;
use crate::decimal::plain_text;

verus! {

/// `confy::ConfyError`, carried through as it came.
#[verifier::external_type_specification]
#[verifier::external_body]
pub struct ExConfyError(confy::ConfyError);

/// `reqwest::Error`, carried through as it came.
#[verifier::external_type_specification]
#[verifier::external_body]
pub struct ExReqwestError(reqwest::Error);

/// `url::ParseError`, carried through as it came.
#[verifier::external_type_specification]
#[verifier::external_body]
pub struct ExUrlError(url::ParseError);

/// The text that `confy::ConfyError` displays. Nothing is claimed of it.
#[verifier::external_body]
fn confy_error_text(e: &ConfyError) -> String {
    e.to_string()
}

/// The text that `reqwest::Error` displays. Nothing is claimed of it.
#[verifier::external_body]
fn reqwest_error_text(e: &ReqwestError) -> String {
    e.to_string()
}

/// The text that `url::ParseError` displays. Nothing is claimed of it.
#[verifier::external_body]
fn url_error_text(e: &UrlError) -> String {
    e.to_string()
}

/// A coordinate out of its range, with the value that was given.
#[derive(Clone, Copy, Debug, PartialEq, Eq, Structural)]
pub enum CoordinatesError {
    Latitude(Decimal),
    Longitude(Decimal),
}

impl CoordinatesError {
    /// The sentence that tells of the error.
    pub open spec fn text(self) -> Seq<char> {
        match self {
            CoordinatesError::Latitude(v) =>
                "Latitude must be between -90 and 90 degrees. You value is: "@ + plain_text(v@),
            CoordinatesError::Longitude(v) =>
                "Longitude must be between -180 and 180 degrees. Your value is: "@ + plain_text(v@),
        }
    }

    /// The sentence that tells of the error, with the value given.
    pub fn message(&self) -> (s: String)
        ensures
            s@ == self.text(),
    {
        match self {
            CoordinatesError::Latitude(v) => {
                let mut out = String::from_str(
                    "Latitude must be between -90 and 90 degrees. You value is: ",
                );
                v.append_plain(&mut out);
                out
            },
            CoordinatesError::Longitude(v) => {
                let mut out = String::from_str(
                    "Longitude must be between -180 and 180 degrees. Your value is: ",
                );
                v.append_plain(&mut out);
                out
            },
        }
    }
}

/// Every failure that is reported to the caller.
#[derive(Debug)]
pub enum AppError {
    /// The stored configuration could not be loaded or saved.
    ConfigSetup(ConfyError),
    /// The request failed, was answered with a failure, or its answer did
    /// not have the expected shape.
    ApiRequest(ReqwestError),
    /// The provider's endpoint is no URL.
    UrlParse(UrlError),
    /// A time could not be told from what the provider sent.
    TimeParse(String),
    /// A coordinate is out of range.
    Coordinates(CoordinatesError),
    /// No provider has been configured.
    EmptyProvider,
}

impl AppError {
    /// What every message opens with, by the kind of failure.
    pub open spec fn heading(self) -> Seq<char> {
        match self {
            AppError::ConfigSetup(_) => "Config setup error: "@,
            AppError::ApiRequest(_) => "Api request error: "@,
            AppError::UrlParse(_) => "Url parse error: "@,
            AppError::TimeParse(_) => "Failed to parse time: "@,
            AppError::Coordinates(_) => "Provided coordinate is incorrent, error: "@,
            AppError::EmptyProvider => "Provider is not configured"@,
        }
    }

    /// Whether `s` is a message of this failure: its heading, the detail, and
    /// a line end. The detail of a failure that came from outside is whatever
    /// that failure displays.
    pub open spec fn is_message(self, s: Seq<char>) -> bool {
        match self {
            AppError::TimeParse(detail) => s == self.heading() + detail@ + "\n"@,
            AppError::Coordinates(e) => s == self.heading() + e.text() + "\n"@,
            AppError::EmptyProvider => s == self.heading() + "\n"@,
            _ => exists|detail: Seq<char>| s == self.heading() + detail + "\n"@,
        }
    }

    /// The line that tells of the failure.
    pub fn message(&self) -> (s: String)
        ensures
            self.is_message(s@),
    {
        match self {
            AppError::ConfigSetup(e) => {
                let detail = confy_error_text(e);
                let mut out = String::from_str("Config setup error: ");
                out.append(detail.as_str());
                out.append("\n");
                assert(out@ == self.heading() + detail@ + "\n"@);
                out
            },
            AppError::ApiRequest(e) => {
                let detail = reqwest_error_text(e);
                let mut out = String::from_str("Api request error: ");
                out.append(detail.as_str());
                out.append("\n");
                assert(out@ == self.heading() + detail@ + "\n"@);
                out
            },
            AppError::UrlParse(e) => {
                let detail = url_error_text(e);
                let mut out = String::from_str("Url parse error: ");
                out.append(detail.as_str());
                out.append("\n");
                assert(out@ == self.heading() + detail@ + "\n"@);
                out
            },
            AppError::TimeParse(detail) => {
                let mut out = String::from_str("Failed to parse time: ");
                out.append(detail.as_str());
                out.append("\n");
                out
            },
            AppError::Coordinates(e) => {
                let detail = e.message();
                let mut out = String::from_str("Provided coordinate is incorrent, error: ");
                out.append(detail.as_str());
                out.append("\n");
                out
            },
            AppError::EmptyProvider => {
                let mut out = String::from_str("Provider is not configured");
                out.append("\n");
                out
            },
        }
    }
}

impl From<ConfyError> for AppError {
    fn from(value: ConfyError) -> (r: AppError) {
        AppError::ConfigSetup(value)
    }
}

impl vstd::std_specs::convert::FromSpecImpl<ConfyError> for AppError {
    open spec fn obeys_from_spec() -> bool {
        true
    }

    open spec fn from_spec(value: ConfyError) -> AppError {
        AppError::ConfigSetup(value)
    }
}

impl From<ReqwestError> for AppError {
    fn from(value: ReqwestError) -> (r: AppError) {
        AppError::ApiRequest(value)
    }
}

impl vstd::std_specs::convert::FromSpecImpl<ReqwestError> for AppError {
    open spec fn obeys_from_spec() -> bool {
        true
    }

    open spec fn from_spec(value: ReqwestError) -> AppError {
        AppError::ApiRequest(value)
    }
}

impl From<UrlError> for AppError {
    fn from(value: UrlError) -> (r: AppError) {
        AppError::UrlParse(value)
    }
}

impl vstd::std_specs::convert::FromSpecImpl<UrlError> for AppError {
    open spec fn obeys_from_spec() -> bool {
        true
    }

    open spec fn from_spec(value: UrlError) -> AppError {
        AppError::UrlParse(value)
    }
}

} // verus!
