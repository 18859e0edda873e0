use mymodbus::frame::{RegisterRequest, RegisterValue};
use mymodbus::http::{
    data_response, empty_response, handle_address, handle_bad_request, handle_empty,
    handle_favicon, http_response, json_response, path_argument, query_params, request_path,
    route, QueryParams, RequestError, Route,
};

#[test]
fn json_response_counts_body_bytes() {
    let r = json_response("200 OK", "{\"a\":\"é\"}".to_string());
    assert_eq!(
        r,
        "HTTP/1.1 200 OK\r\nContent-Type: application/json; charset=utf-8\r\nContent-Length: 10\r\nConnection: close\r\n\r\n{\"a\":\"é\"}"
    );
    assert_eq!(
        empty_response("204 No Content"),
        "HTTP/1.1 204 No Content\r\nContent-Length: 0\r\nConnection: close\r\n\r\n"
    );
}

#[test]
fn register_values_are_formatted() {
    assert!(http_response(Ok(RegisterValue::U16(230))).ends_with("\r\n\r\n{\"data\": 230}"));
    assert!(http_response(Ok(RegisterValue::I32(-5))).ends_with("{\"data\": -5}"));
    assert!(http_response(Ok(RegisterValue::U32(4294967295))).ends_with("{\"data\": 4294967295}"));
    assert!(http_response(Ok(RegisterValue::String("SH10".into()))).ends_with("{\"data\": \"SH10\"}"));
    assert!(http_response(Err("timed out".into())).ends_with("{\"data\": \"timed out\"}"));
    assert!(data_response("0.5").ends_with("{\"data\": 0.5}"));
}

#[test]
fn fixed_handlers() {
    assert_eq!(
        handle_empty().unwrap(),
        "HTTP/1.1 200 OK\r\nContent-Type: application/json; charset=utf-8\r\nContent-Length: 15\r\nConnection: close\r\n\r\n{\"status\":\"ok\"}"
    );
    assert_eq!(handle_favicon().unwrap(), empty_response("204 No Content"));
    let bad = handle_bad_request("unsupported request");
    assert!(bad.starts_with("HTTP/1.1 400 Bad Request\r\n"));
    assert!(bad.ends_with("{\"error\":\"unsupported request\"}"));
}

#[test]
fn address_handler_sends_the_trimmed_address() {
    let mut seen = None;
    let reply = handle_address("/address/31000//", |req| {
        seen = Some(req);
        Ok(RegisterValue::U16(7))
    })
    .unwrap();
    assert_eq!(seen, Some(RegisterRequest::Raw("31000".to_string())));
    assert!(reply.ends_with("{\"data\": 7}"));
    assert_eq!(path_argument("/id/pv1_power/", "/id/"), "pv1_power");
}

#[test]
fn request_lines_are_routed() {
    let p = request_path(b"GET /history?from_ts=1&to_ts=2 HTTP/1.1\r\nHost: x\r\n\r\n");
    assert_eq!(p.as_deref(), Some("/history?from_ts=1&to_ts=2"));
    assert_eq!(request_path(b"POST / HTTP/1.1\r\n"), None);
    assert_eq!(request_path(b""), None);
    assert_eq!(request_path(b"GET    "), None);
    assert_eq!(route("/"), Route::Root);
    assert_eq!(route("/favicon.ico"), Route::Favicon);
    assert_eq!(route("/id/battery_soc"), Route::Id);
    assert_eq!(route("/address/1"), Route::Address);
    assert_eq!(route("/history"), Route::History);
    assert_eq!(route("/energy-intervals?from_ts=1"), Route::EnergyIntervals);
    assert_eq!(route("/metrics"), Route::Unsupported);
    assert_eq!(RequestError::Unsupported.message(), "unsupported request");
}

#[test]
fn query_parameters_last_one_wins() {
    assert_eq!(
        query_params("/history?from_ts=10&to_ts=20&interval=5"),
        QueryParams { from_ts: Some(10), to_ts: Some(20), interval: Some(5) }
    );
    assert_eq!(
        query_params("/history?from_ts=10&&from_ts=x&to_ts=3"),
        QueryParams { from_ts: None, to_ts: Some(3), interval: None }
    );
    assert_eq!(query_params("/history"), QueryParams { from_ts: None, to_ts: None, interval: None });
}
