//! Requests and answers.

use serde_json::Value;

use cship_usage::usage_limits::{
    classify_status, fetch_step, fetch_usage_limits, parse_api_response, parse_retry_after,
    ApiResponse, ExtraUsageResponse, FetchAction, FetchEvent, FloatBits, HttpMethod,
    UsageFetchOutcome, UsageLimitsData, UsagePeriod,
};

fn bits(x: f64) -> FloatBits {
    FloatBits { bits: x.to_bits() }
}

fn float(x: FloatBits) -> f64 {
    f64::from_bits(x.bits)
}

fn number(v: &Value) -> Option<FloatBits> {
    v.as_f64().map(bits)
}

fn period(v: &Value) -> Option<UsagePeriod> {
    if v.is_null() {
        return None;
    }
    Some(UsagePeriod {
        utilization: number(&v["utilization"]).unwrap(),
        resets_at: v["resets_at"].as_str().map(String::from),
    })
}

/// The body of an answer, read from JSON.
fn body(json: &str) -> Result<ApiResponse, String> {
    let v: Value = serde_json::from_str(json).map_err(|e| e.to_string())?;
    let extra = &v["extra_usage"];
    Ok(ApiResponse {
        five_hour: period(&v["five_hour"]),
        seven_day: period(&v["seven_day"]),
        seven_day_opus: period(&v["seven_day_opus"]),
        seven_day_sonnet: period(&v["seven_day_sonnet"]),
        seven_day_cowork: period(&v["seven_day_cowork"]),
        seven_day_oauth_apps: period(&v["seven_day_oauth_apps"]),
        extra_usage: if extra.is_null() {
            None
        } else {
            Some(ExtraUsageResponse {
                is_enabled: extra["is_enabled"].as_bool(),
                monthly_limit: number(&extra["monthly_limit"]),
                used_credits: number(&extra["used_credits"]),
                utilization: number(&extra["utilization"]),
            })
        },
    })
}

#[test]
fn test_parse_retry_after_seconds_present() {
    assert_eq!(parse_retry_after(Some("120")), Some(120));
}

#[test]
fn test_parse_retry_after_malformed_is_none() {
    assert_eq!(parse_retry_after(Some("not-a-number")), None);
}

#[test]
fn test_parse_retry_after_absent_is_none() {
    assert_eq!(parse_retry_after(None), None);
}

#[test]
fn retry_after_is_a_whole_number_of_seconds() {
    assert_eq!(parse_retry_after(Some("+30")), Some(30));
    assert_eq!(parse_retry_after(Some("0")), Some(0));
    assert_eq!(parse_retry_after(Some("-30")), None);
    assert_eq!(parse_retry_after(Some("1.5")), None);
    assert_eq!(parse_retry_after(Some(" 30")), None);
    assert_eq!(parse_retry_after(Some("")), None);
    assert_eq!(parse_retry_after(Some("18446744073709551616")), None);
}

#[test]
fn test_classify_status_200_returns_none() {
    assert!(classify_status(200, None).is_none());
}

#[test]
fn test_classify_status_401_returns_unauthorized() {
    assert!(matches!(
        classify_status(401, None),
        Some(UsageFetchOutcome::Unauthorized)
    ));
}

#[test]
fn test_classify_status_429_with_retry_after_returns_rate_limited_with_seconds() {
    match classify_status(429, Some("120")) {
        Some(UsageFetchOutcome::RateLimited { retry_after_seconds }) => {
            assert_eq!(retry_after_seconds, Some(120))
        }
        other => panic!("expected RateLimited with retry_after, got {other:?}"),
    }
}

#[test]
fn test_classify_status_429_without_retry_after_returns_rate_limited_with_none() {
    match classify_status(429, None) {
        Some(UsageFetchOutcome::RateLimited { retry_after_seconds }) => {
            assert_eq!(retry_after_seconds, None)
        }
        other => panic!("expected RateLimited with no retry_after, got {other:?}"),
    }
}

#[test]
fn malformed_retry_after_counts_as_absent() {
    for header in ["soon", "-1", "", "Wed, 21 Oct 2015 07:28:00 GMT"] {
        assert!(matches!(
            classify_status(429, Some(header)),
            Some(UsageFetchOutcome::RateLimited { retry_after_seconds: None })
        ));
    }
}

#[test]
fn test_classify_status_500_returns_server_error() {
    match classify_status(500, None) {
        Some(UsageFetchOutcome::ServerError { status }) => assert_eq!(status, 500),
        other => panic!("expected ServerError{{500}}, got {other:?}"),
    }
}

#[test]
fn test_classify_status_other_non_success_returns_server_error() {
    match classify_status(403, None) {
        Some(UsageFetchOutcome::ServerError { status }) => assert_eq!(status, 403),
        other => panic!("expected ServerError{{403}}, got {other:?}"),
    }
    match classify_status(418, None) {
        Some(UsageFetchOutcome::ServerError { status }) => assert_eq!(status, 418),
        other => panic!("expected ServerError{{418}}, got {other:?}"),
    }
}

#[test]
fn test_fetch_parses_extra_usage_fields() {
    let json = r#"{
        "five_hour": {"utilization": 100.0, "resets_at": "2099-01-01T00:00:00+00:00"},
        "seven_day": {"utilization": 47.0, "resets_at": "2099-01-01T00:00:00+00:00"},
        "seven_day_opus": {"utilization": 12.0, "resets_at": "2099-02-01T00:00:00+00:00"},
        "seven_day_sonnet": {"utilization": 3.0, "resets_at": "2099-03-01T00:00:00+00:00"},
        "seven_day_cowork": null,
        "seven_day_oauth_apps": null,
        "extra_usage": {
            "is_enabled": true,
            "monthly_limit": 20000,
            "used_credits": 6195.0,
            "utilization": 30.975
        },
        "iguana_necktie": null
    }"#;
    let data = parse_api_response(body(json)).unwrap();
    assert_eq!(data.extra_usage_enabled, Some(true));
    assert_eq!(data.extra_usage_monthly_limit, Some(bits(20000.0)));
    assert!((float(data.extra_usage_used_credits.unwrap()) - 6195.0).abs() < f64::EPSILON);
    assert!((float(data.extra_usage_utilization.unwrap()) - 30.975).abs() < f64::EPSILON);
    assert!((float(data.seven_day_opus_pct.unwrap()) - 12.0).abs() < f64::EPSILON);
    assert_eq!(
        data.seven_day_opus_resets_at.as_deref(),
        Some("2099-02-01T00:00:00+00:00")
    );
    assert!((float(data.seven_day_sonnet_pct.unwrap()) - 3.0).abs() < f64::EPSILON);
    assert_eq!(
        data.seven_day_sonnet_resets_at.as_deref(),
        Some("2099-03-01T00:00:00+00:00")
    );
    assert!(data.seven_day_cowork_pct.is_none());
    assert!(data.seven_day_oauth_apps_pct.is_none());
}

#[test]
fn test_fetch_parses_null_extra_usage() {
    let json = r#"{
        "five_hour": {"utilization": 50.0, "resets_at": "2099-01-01T00:00:00+00:00"},
        "seven_day": {"utilization": 20.0, "resets_at": "2099-01-01T00:00:00+00:00"}
    }"#;
    let data = parse_api_response(body(json)).unwrap();
    assert!(data.extra_usage_enabled.is_none());
    assert!(data.extra_usage_monthly_limit.is_none());
    assert!(data.seven_day_opus_pct.is_none());
    assert!(data.seven_day_sonnet_pct.is_none());
}

#[test]
fn test_parse_enterprise_response_with_null_standard_fields() {
    let json = r#"{
        "five_hour": null,
        "seven_day": null,
        "seven_day_oauth_apps": null,
        "seven_day_opus": null,
        "seven_day_sonnet": null,
        "seven_day_cowork": null,
        "seven_day_omelette": null,
        "tangelo": null,
        "iguana_necktie": null,
        "omelette_promotional": {"utilization": 0.0, "resets_at": null},
        "extra_usage": {
            "is_enabled": true,
            "monthly_limit": 20000,
            "used_credits": 19411.0,
            "utilization": 97.055,
            "currency": "USD"
        }
    }"#;
    let data = parse_api_response(body(json)).expect("Enterprise response must parse");
    assert_eq!(float(data.five_hour_pct), 0.0);
    assert_eq!(float(data.seven_day_pct), 0.0);
    assert!(data.five_hour_resets_at.is_empty());
    assert!(data.seven_day_resets_at.is_empty());
    assert_eq!(data.extra_usage_enabled, Some(true));
    assert_eq!(data.extra_usage_monthly_limit, Some(bits(20000.0)));
    assert!((float(data.extra_usage_used_credits.unwrap()) - 19411.0).abs() < f64::EPSILON);
    assert!((float(data.extra_usage_utilization.unwrap()) - 97.055).abs() < f64::EPSILON);
}

#[test]
fn test_parse_response_with_missing_standard_fields_keys() {
    let json = r#"{
        "extra_usage": {
            "is_enabled": true,
            "monthly_limit": 5000,
            "used_credits": 1234.5,
            "utilization": 24.69
        }
    }"#;
    let data = parse_api_response(body(json)).expect("missing standard fields must not be fatal");
    assert_eq!(float(data.five_hour_pct), 0.0);
    assert_eq!(float(data.seven_day_pct), 0.0);
    assert_eq!(data.extra_usage_enabled, Some(true));
}

#[test]
fn standard_periods_are_taken_over() {
    let json = r#"{
        "five_hour": {"utilization": 12.5, "resets_at": "2099-01-01T00:00:00Z"},
        "seven_day": {"utilization": 0.25, "resets_at": null},
        "seven_day_cowork": {"utilization": 1.0, "resets_at": null},
        "seven_day_oauth_apps": {"utilization": 2.0, "resets_at": "2099-01-02T00:00:00Z"},
        "extra_usage": {}
    }"#;
    let data = parse_api_response(body(json)).unwrap();
    assert_eq!(float(data.five_hour_pct), 12.5);
    assert_eq!(data.five_hour_resets_at, "2099-01-01T00:00:00Z");
    assert_eq!(float(data.seven_day_pct), 0.25);
    assert_eq!(data.seven_day_resets_at, "");
    assert_eq!(data.seven_day_cowork_pct, Some(bits(1.0)));
    assert_eq!(data.seven_day_cowork_resets_at, None);
    assert_eq!(data.seven_day_oauth_apps_pct, Some(bits(2.0)));
    assert_eq!(data.seven_day_oauth_apps_resets_at.as_deref(), Some("2099-01-02T00:00:00Z"));
    assert_eq!(data.five_hour_resets_at_epoch, None);
    assert_eq!(data.seven_day_resets_at_epoch, None);
    assert_eq!(data.extra_usage_enabled, None);
}

#[test]
fn refused_body_is_reported_with_its_reason() {
    let e = parse_api_response(Err("missing field".to_string())).unwrap_err();
    assert_eq!(e, "unexpected response format: missing field");
}

#[test]
fn default_limits_are_empty() {
    let data = UsageLimitsData::default();
    assert_eq!(float(data.five_hour_pct), 0.0);
    assert_eq!(data.seven_day_pct, FloatBits::zero());
    assert_eq!(data.five_hour_resets_at, "");
    assert_eq!(data.seven_day_opus_resets_at, None);
}

#[test]
fn clone_keeps_every_field() {
    let json = r#"{
        "five_hour": {"utilization": 12.5, "resets_at": "a"},
        "seven_day_sonnet": {"utilization": 3.0, "resets_at": "b"}
    }"#;
    let data = parse_api_response(body(json)).unwrap();
    assert_eq!(format!("{:?}", data.clone()), format!("{data:?}"));
}

#[test]
fn request_names_the_token_and_the_version() {
    let request = fetch_usage_limits("tok", "status-line", Some("1.2.3"));
    assert_eq!(request.method, HttpMethod::Get);
    assert_eq!(request.url, "https://api.anthropic.com/api/oauth/usage");
    assert_eq!(request.timeout_ms, 5000);
    let pair = |n: &str, v: &str| (n.to_string(), v.to_string());
    assert_eq!(
        request.headers,
        vec![
            pair("Authorization", "Bearer tok"),
            pair("Content-Type", "application/json"),
            pair("User-Agent", "status-line/1.2.3"),
            pair("anthropic-beta", "oauth-2025-04-20"),
        ]
    );
    let unknown = fetch_usage_limits("tok", "status-line", None);
    assert_eq!(unknown.headers[2].1, "status-line/unknown");
}

fn outcome(event: FetchEvent) -> UsageFetchOutcome {
    match fetch_step(event) {
        FetchAction::Finish(outcome) => outcome,
        FetchAction::ReadBody => panic!("the fetch goes on"),
    }
}

#[test]
fn fetch_ends_without_an_answer() {
    assert!(matches!(
        outcome(FetchEvent::TransportFailed),
        UsageFetchOutcome::NetworkError
    ));
}

#[test]
fn fetch_reads_the_body_of_a_success_only() {
    let answered = |status: u16| FetchEvent::Answered { status, retry_after: Some("7".to_string()) };
    assert!(matches!(fetch_step(answered(200)), FetchAction::ReadBody));
    assert!(matches!(outcome(answered(401)), UsageFetchOutcome::Unauthorized));
    assert!(matches!(
        outcome(answered(429)),
        UsageFetchOutcome::RateLimited { retry_after_seconds: Some(7) }
    ));
    assert!(matches!(
        outcome(answered(201)),
        UsageFetchOutcome::ServerError { status: 201 }
    ));
    assert!(matches!(
        outcome(FetchEvent::Answered { status: 429, retry_after: None }),
        UsageFetchOutcome::RateLimited { retry_after_seconds: None }
    ));
}

#[test]
fn fetch_ends_with_what_the_body_holds() {
    assert!(matches!(
        outcome(FetchEvent::BodyUnreadable),
        UsageFetchOutcome::InvalidResponse
    ));
    assert!(matches!(
        outcome(FetchEvent::BodyRead(body("{not json"))),
        UsageFetchOutcome::InvalidResponse
    ));
    match outcome(FetchEvent::BodyRead(body(r#"{"five_hour": {"utilization": 42.0}}"#))) {
        UsageFetchOutcome::Success(data) => assert_eq!(float(data.five_hour_pct), 42.0),
        other => panic!("expected Success, got {other:?}"),
    }
}
