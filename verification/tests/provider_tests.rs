use weather_tui::provider::{
    classify_network_error, map_network_error, validate_payload, NetworkError, ResponseDataError,
    WeatherProviderError,
};

#[test]
fn wind_direction_in_range_is_valid() {
    assert_eq!(validate_payload(0), Ok(()));
    assert_eq!(validate_payload(180), Ok(()));
    assert_eq!(validate_payload(360), Ok(()));
}

#[test]
fn wind_direction_out_of_range_is_invalid_field() {
    for wd in [361u16, 400, u16::MAX] {
        assert_eq!(
            validate_payload(wd),
            Err(ResponseDataError::InvalidField(
                "wind_direction_10m".to_string(),
                "expected value in 0..=360".to_string()
            ))
        );
    }
}

#[test]
fn timeout_wins() {
    assert_eq!(classify_network_error(true, Some(500)), NetworkError::Timeout);
    assert_eq!(classify_network_error(true, None), NetworkError::Timeout);
}

#[test]
fn status_is_reported() {
    assert_eq!(classify_network_error(false, Some(404)), NetworkError::HttpStatus(404));
}

#[test]
fn otherwise_connection_failed() {
    assert_eq!(classify_network_error(false, None), NetworkError::Connection);
}

#[test]
fn errors_convert_into_provider_error() {
    assert_eq!(
        WeatherProviderError::from(NetworkError::Timeout),
        WeatherProviderError::Network(NetworkError::Timeout)
    );
    let data = ResponseDataError::Decode("bad".to_string());
    assert_eq!(
        WeatherProviderError::from(data.clone()),
        WeatherProviderError::ResponseData(data)
    );
}

fn status_error(code: u16) -> reqwest::Error {
    let response = http::Response::builder().status(code).body("").unwrap();
    reqwest::Response::from(response).error_for_status().unwrap_err()
}

#[test]
fn status_response_maps_to_http_status() {
    assert_eq!(
        map_network_error(status_error(404)),
        WeatherProviderError::Network(NetworkError::HttpStatus(404))
    );
    assert_eq!(
        map_network_error(status_error(503)),
        WeatherProviderError::Network(NetworkError::HttpStatus(503))
    );
}

#[test]
fn error_without_status_maps_to_connection() {
    let err = reqwest::Client::new().get("not a url").build().unwrap_err();
    assert_eq!(
        map_network_error(err),
        WeatherProviderError::Network(NetworkError::Connection)
    );
}
