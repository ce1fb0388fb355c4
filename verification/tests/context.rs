use reqwest::{Method, Proxy};
use stepper::context::Context;
use stepper::errors::StepError;
use stepper::request::Request;

#[test]
fn context_should_get_current_step_without_one_set() {
    let ctx = Context::new();
    assert_eq!(ctx.get_current_step(), None);
}

#[test]
fn context_should_get_url_without_one_set() {
    let ctx = Context::new();
    assert_eq!(ctx.get_url(), "/");
}

#[test]
fn context_body_test_should_throw_error_if_not_initialized() {
    let ctx = Context::new();

    let err = ctx.body_text().unwrap_err();
    assert_eq!(err.message(), "No body has been set from the request.");
}

#[test]
fn context_body_bytes_should_throw_error_if_not_initialized() {
    let ctx = Context::new();

    let err = ctx.body_bytes().unwrap_err();
    assert_eq!(err.message(), "No body has been set from the request.");
}

#[test]
fn context_body_json_should_mock_response_and_get_name() {
    let mut ctx = Context::new();
    let res = bytes::Bytes::from_static(b"{\"name\": \"test\"}");
    ctx.set_response_body(res);

    let json: serde_json::Value = ctx.body_json().unwrap();
    assert_eq!(json["name"], "test");
}

#[test]
fn context_body_json_should_return_error_if_invalid_json() {
    let mut ctx = Context::new();
    let res = bytes::Bytes::from_static(b"{\"name\": \"test\"");
    ctx.set_response_body(res);

    let err = ctx.body_json().unwrap_err();
    assert!(err.message().len() > 0);
}

#[test]
fn new_context_has_run_nothing() {
    let ctx = Context::new();
    assert_eq!(ctx.get_method(), Method::GET);
    assert_eq!(ctx.get_url(), "/");
    assert_eq!(ctx.get_current_step(), None);
    assert_eq!(ctx.get_next_step(), None);
    assert_eq!(ctx.get_status_codes(), None);
    assert_eq!(ctx.get_time_elapsed(), 0);
    assert!(ctx.response_body.is_none());
    assert!(ctx.http_requester.settings.proxy().is_none());
    assert!(ctx.http_requester.settings.user_agent().is_none());
    assert!(ctx.http_requester.settings.is_compressed());
}

#[test]
fn setters_touch_their_field_only() {
    let mut ctx = Context::new();
    ctx.set_next_step("B".to_string());
    ctx.set_current_step("A".to_string());
    ctx.set_time_elapsed(17);
    ctx.set_status_codes(vec![200, 204]);
    assert_eq!(ctx.get_next_step(), Some("B".to_string()));
    assert_eq!(ctx.get_current_step(), Some("A".to_string()));
    assert_eq!(ctx.get_time_elapsed(), 17);
    assert_eq!(ctx.get_status_codes(), Some(vec![200, 204]));
    ctx.clear_next_step();
    assert_eq!(ctx.get_next_step(), None);
    assert_eq!(ctx.get_current_step(), Some("A".to_string()));
    assert_eq!(ctx.get_time_elapsed(), 17);
    assert_eq!(ctx.get_status_codes(), Some(vec![200, 204]));
}

#[test]
fn elapsed_time_reads_as_milliseconds() {
    let mut ctx = Context::new();
    assert_eq!(ctx.get_time_elapsed_as_string(), "0 ms");
    ctx.set_time_elapsed(128);
    assert_eq!(ctx.get_time_elapsed_as_string(), "128 ms");
    ctx.set_time_elapsed(u64::MAX);
    assert_eq!(ctx.get_time_elapsed_as_string(), "18446744073709551615 ms");
}

#[test]
fn body_comes_back_as_bytes_and_as_text() {
    let mut ctx = Context::new();
    ctx.set_response_body(bytes::Bytes::from_static("h\u{e9}llo".as_bytes()));
    assert_eq!(ctx.body_bytes().unwrap(), "h\u{e9}llo".as_bytes());
    assert_eq!(ctx.body_text().unwrap(), "h\u{e9}llo");
}

#[test]
fn text_loses_a_byte_order_mark_and_mends_what_is_malformed() {
    let mut ctx = Context::new();
    ctx.set_response_body(bytes::Bytes::from_static(b"\xEF\xBB\xBFabc"));
    assert_eq!(ctx.body_text().unwrap(), "abc");
    ctx.set_response_body(bytes::Bytes::from_static(b"a\xFFb"));
    assert_eq!(ctx.body_text().unwrap(), "a\u{fffd}b");
    ctx.set_response_body(bytes::Bytes::from_static(b"\xFF\xFEa\x00"));
    assert_eq!(ctx.body_text().unwrap(), "a");
    ctx.set_response_body(bytes::Bytes::new());
    assert_eq!(ctx.body_text().unwrap(), "");
}

#[test]
fn json_without_a_body_is_a_no_body_error() {
    let ctx = Context::new();
    assert!(matches!(ctx.body_json(), Err(StepError::NoBodyError)));
    assert!(matches!(ctx.body_text(), Err(StepError::NoBodyError)));
    assert!(matches!(ctx.body_bytes(), Err(StepError::NoBodyError)));
}

#[test]
fn malformed_json_is_a_decode_error_with_the_parsers_words() {
    let mut ctx = Context::new();
    ctx.set_response_body(bytes::Bytes::from_static(b"{\"name\": \"test\""));
    match ctx.body_json() {
        Err(StepError::DecodeError(detail)) => {
            assert_eq!(detail, "EOF while parsing an object at line 1 column 15");
        }
        _ => panic!("expected a decode error"),
    }
}

#[test]
fn json_outcome_maps_the_parsers_answer() {
    let parsed = serde_json::from_slice::<serde_json::Value>(b"[1, 2]");
    let value = Context::json_outcome(parsed).unwrap();
    assert_eq!(value[1], 2);
    let parsed = serde_json::from_slice::<serde_json::Value>(b"[1, 2");
    assert!(matches!(
        Context::json_outcome(parsed),
        Err(StepError::DecodeError(_))
    ));
}

#[test]
fn update_takes_settings_codes_and_descriptor() {
    let mut ctx = Context::new();
    ctx.set_next_step("keep".to_string());
    let req = Request::new(Method::POST, "https://a.example/x".to_string())
        .with_status_codes(vec![201])
        .with_user_agent("agent".to_string())
        .with_proxy(Proxy::http("https://secure.example").unwrap())
        .no_compression();
    assert!(ctx.update_from_request(req).is_ok());
    assert_eq!(ctx.get_method(), Method::POST);
    assert_eq!(ctx.get_url(), "https://a.example/x");
    assert_eq!(ctx.get_status_codes(), Some(vec![201]));
    assert_eq!(ctx.http_requester.settings.user_agent().unwrap(), "agent");
    assert!(ctx.http_requester.settings.proxy().is_some());
    assert!(!ctx.http_requester.settings.is_compressed());
    assert!(ctx.request_builder.is_some());
    assert_eq!(ctx.get_next_step(), Some("keep".to_string()));
    assert_eq!(ctx.get_current_step(), None);
}

#[test]
fn failed_update_leaves_no_handle_and_the_old_descriptor() {
    let mut ctx = Context::new();
    let good = Request::new(Method::GET, "https://a.example".to_string());
    assert!(ctx.update_from_request(good).is_ok());
    assert!(ctx.request_builder.is_some());
    let bad = Request::new(Method::POST, "no url".to_string()).with_status_codes(vec![404]);
    let err = ctx.update_from_request(bad).unwrap_err();
    assert!(matches!(err, StepError::RequestBuildError));
    assert!(ctx.request_builder.is_none());
    assert_eq!(ctx.get_url(), "https://a.example");
    assert_eq!(ctx.get_method(), Method::GET);
    assert_eq!(ctx.get_status_codes(), Some(vec![404]));
}

#[test]
fn taking_the_handle_leaves_none() {
    let mut ctx = Context::new();
    let req = Request::new(Method::GET, "https://a.example".to_string());
    ctx.update_from_request(req).unwrap();
    assert!(ctx.take_request_builder().is_some());
    assert!(ctx.take_request_builder().is_none());
    let client = reqwest::Client::new();
    ctx.set_request_builder(client.get("https://b.example"));
    assert!(ctx.take_request_builder().is_some());
}

#[test]
fn more_headers_than_fit_fail_the_update() {
    let mut headers = reqwest::header::HeaderMap::new();
    for i in 0..6501 {
        let name = reqwest::header::HeaderName::from_bytes(format!("x-header-{}", i).as_bytes());
        headers.insert(name.unwrap(), reqwest::header::HeaderValue::from_static("v"));
    }
    let mut ctx = Context::new();
    let good = Request::new(Method::GET, "https://a.example".to_string());
    assert!(ctx.update_from_request(good).is_ok());
    let req = Request::new(Method::POST, "https://b.example".to_string())
        .with_headers(headers)
        .with_status_codes(vec![202])
        .with_user_agent("agent".to_string());
    assert!(matches!(
        ctx.update_from_request(req),
        Err(StepError::RequestBuildError)
    ));
    assert!(ctx.request_builder.is_none());
    assert_eq!(ctx.get_url(), "https://a.example");
    assert_eq!(ctx.get_status_codes(), Some(vec![202]));
    assert_eq!(ctx.http_requester.settings.user_agent().unwrap(), "agent");
}

#[test]
fn a_well_formed_url_gives_a_handle_and_a_bad_agent_gives_none() {
    let mut ctx = Context::new();
    let req = Request::new(Method::GET, "https://google.com".to_string());
    assert!(ctx.update_from_request(req).is_ok());
    assert_eq!(ctx.get_url(), "https://google.com");
    assert_eq!(ctx.get_method(), Method::GET);
    assert!(ctx.request_builder.is_some());

    let req = Request::new(Method::POST, "https://other.example".to_string())
        .with_user_agent("bad\nagent".to_string());
    assert!(matches!(
        ctx.update_from_request(req),
        Err(StepError::RequestBuildError)
    ));
    assert!(ctx.request_builder.is_none());
    assert_eq!(ctx.get_url(), "https://google.com");
    assert_eq!(ctx.get_method(), Method::GET);
    assert_eq!(ctx.http_requester.settings.user_agent().unwrap(), "bad\nagent");
}

#[test]
fn well_formed_utf8_reads_as_the_characters_it_encodes() {
    let mut ctx = Context::new();
    for text in ["", "abc", "h\u{e9}llo \u{1f600}", "\u{feff}", "a\u{feff}b", "\u{ffff}\u{10ffff}"] {
        ctx.set_response_body(bytes::Bytes::copy_from_slice(text.as_bytes()));
        let expected = text.strip_prefix('\u{feff}').unwrap_or(text);
        assert_eq!(ctx.body_text().unwrap(), expected, "{:?}", text);
        assert_eq!(ctx.body_text_if_decodable().unwrap().unwrap(), expected);
    }
}
