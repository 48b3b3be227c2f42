//! The weather provider's errors, the check applied to a provider reply, and the
//! classification of a failed HTTP exchange.

use vstd::prelude::*;

verus! {

/// A failure to reach the weather service.
#[derive(Debug, Clone, Copy, PartialEq, Eq, Structural)]
pub enum NetworkError {
    /// The request timed out.
    Timeout,
    /// The connection failed.
    Connection,
    /// The service answered with this HTTP status.
    HttpStatus(u16),
}

/// A reply of the weather service that cannot be used.
#[derive(Debug, Clone, PartialEq, Eq)]
pub enum ResponseDataError {
    /// The body could not be decoded; the decoder's message.
    Decode(String),
    /// A field holds an invalid value: the field's name and what was expected.
    InvalidField(String, String),
}

/// Any failure of a weather provider.
#[derive(Debug, Clone, PartialEq, Eq)]
pub enum WeatherProviderError {
    Network(NetworkError),
    ResponseData(ResponseDataError),
}

impl From<NetworkError> for WeatherProviderError {
    fn from(err: NetworkError) -> (res: WeatherProviderError) {
        WeatherProviderError::Network(err)
    }
}

impl vstd::std_specs::convert::FromSpecImpl<NetworkError> for WeatherProviderError {
    open spec fn obeys_from_spec() -> bool {
        true
    }

    open spec fn from_spec(err: NetworkError) -> WeatherProviderError {
        WeatherProviderError::Network(err)
    }
}

impl From<ResponseDataError> for WeatherProviderError {
    fn from(err: ResponseDataError) -> (res: WeatherProviderError) {
        WeatherProviderError::ResponseData(err)
    }
}

impl vstd::std_specs::convert::FromSpecImpl<ResponseDataError> for WeatherProviderError {
    open spec fn obeys_from_spec() -> bool {
        true
    }

    open spec fn from_spec(err: ResponseDataError) -> WeatherProviderError {
        WeatherProviderError::ResponseData(err)
    }
}

/// The largest wind bearing, in degrees, that a reply may carry.
pub const MAX_WIND_DIRECTION: u16 = 360;

/// Checks the fields of a reply that the program relies on: the wind bearing
/// `wind_direction_10m` must lie in `0..=360` degrees.
pub fn validate_payload(wind_direction_10m: u16) -> (res: Result<(), ResponseDataError>)
    ensures
        res is Ok <==> wind_direction_10m <= 360,
        res matches Err(err) ==> err matches ResponseDataError::InvalidField(field, expected)
            && field@ == "wind_direction_10m"@ && expected@ == "expected value in 0..=360"@,
{
    if wind_direction_10m > MAX_WIND_DIRECTION {
        return Err(
            ResponseDataError::InvalidField(
                "wind_direction_10m".to_owned(),
                "expected value in 0..=360".to_owned(),
            ),
        );
    }
    Ok(())
}

/// The network error for a failed exchange: a timeout wins over everything, then
/// an HTTP status the service answered with, and a connection failure otherwise.
pub open spec fn network_error_of(timed_out: bool, status: Option<u16>) -> NetworkError {
    if timed_out {
        NetworkError::Timeout
    } else {
        match status {
            Some(code) => NetworkError::HttpStatus(code),
            None => NetworkError::Connection,
        }
    }
}

/// The classification of a failed exchange: a timeout is reported as such whatever
/// the status; otherwise a status `s` is reported as `HttpStatus(s)`, for every `s`,
/// and a connection failure is reported exactly when there is no status.
pub proof fn lemma_network_error_classes(timed_out: bool, status: Option<u16>)
    ensures
        timed_out ==> network_error_of(timed_out, status) == NetworkError::Timeout,
        forall|s: u16|
            !timed_out && status == Some(s) ==> #[trigger] network_error_of(timed_out, Some(s))
                == NetworkError::HttpStatus(s),
        !timed_out ==> (network_error_of(timed_out, status) == NetworkError::Connection
            <==> status is None),
        network_error_of(timed_out, status) == NetworkError::Timeout <==> timed_out,
{
}

/// Classifies a failed exchange from whether it timed out and the HTTP status it
/// answered with, if any.
pub fn classify_network_error(timed_out: bool, status: Option<u16>) -> (err: NetworkError)
    ensures
        err == network_error_of(timed_out, status),
        timed_out ==> err == NetworkError::Timeout,
        !timed_out && status is Some ==> err == NetworkError::HttpStatus(status->0),
        !timed_out && status is None ==> err == NetworkError::Connection,
{
    if timed_out {
        NetworkError::Timeout
    } else if let Some(code) = status {
        NetworkError::HttpStatus(code)
    } else {
        NetworkError::Connection
    }
}

#[verifier::external_type_specification]
#[verifier::external_body]
pub struct ExHttpError(reqwest::Error);

#[verifier::external_type_specification]
#[verifier::external_body]
pub struct ExStatusCode(reqwest::StatusCode);

/// Whether a reqwest error is, or was caused by, a timeout: what
/// `reqwest::Error::is_timeout` returns for it.
pub uninterp spec fn timed_out_of(err: reqwest::Error) -> bool;

/// The HTTP status a reqwest error carries: what `reqwest::Error::status` returns
/// for it.
pub uninterp spec fn status_of(err: reqwest::Error) -> Option<reqwest::StatusCode>;

/// The numeric code of an HTTP status: what `http::StatusCode::as_u16` returns for it.
pub uninterp spec fn code_of(status: reqwest::StatusCode) -> u16;

/// The numeric HTTP status a reqwest error carries, if any.
pub open spec fn status_code_of(err: reqwest::Error) -> Option<u16> {
    match status_of(err) {
        Some(status) => Some(code_of(status)),
        None => None,
    }
}

/// `reqwest::Error::is_timeout`: whether the error or one of the errors in its
/// source chain is a timeout. The result is a function of the error alone, named
/// `timed_out_of`.
#[verifier::external_body]
fn error_is_timeout(err: &reqwest::Error) -> (res: bool)
    ensures
        res == timed_out_of(*err),
{
    err.is_timeout()
}

/// `reqwest::Error::status`: the HTTP status of an error raised for a status
/// response, `None` for other errors. The result is a function of the error alone,
/// named `status_of`.
#[verifier::external_body]
fn error_status(err: &reqwest::Error) -> (res: Option<reqwest::StatusCode>)
    ensures
        res == status_of(*err),
{
    err.status()
}

/// `http::StatusCode::as_u16` (re-exported by reqwest): the numeric code, named
/// `code_of`, which every `StatusCode` keeps within `100..=999`.
#[verifier::external_body]
fn status_as_u16(status: &reqwest::StatusCode) -> (code: u16)
    ensures
        code == code_of(*status),
        100 <= code <= 999,
{
    status.as_u16()
}

/// Turns a failed HTTP exchange into a provider error: a network error classified
/// from whether the exchange timed out and the HTTP status it carried.
pub fn map_network_error(err: reqwest::Error) -> (res: WeatherProviderError)
    ensures
        res == WeatherProviderError::Network(
            network_error_of(timed_out_of(err), status_code_of(err)),
        ),
{
    let timed_out = error_is_timeout(&err);
    let status = match error_status(&err) {
        Some(s) => Some(status_as_u16(&s)),
        None => None,
    };
    WeatherProviderError::from(classify_network_error(timed_out, status))
}

} // verus!
