use quantpilot::error::malformed_request_answer;
use quantpilot::json_text::json_to_text;
use quantpilot::rate_limit::{
    auth_rate_limited_rejection, configured_rate_limit_rps, env_flag_enabled, rate_limit_client_key,
    rate_limited_rejection,
};

#[test]
fn switches_are_on_for_true_or_one() {
    assert!(env_flag_enabled(Some("true")));
    assert!(env_flag_enabled(Some("1")));
    assert!(!env_flag_enabled(Some("TRUE")));
    assert!(!env_flag_enabled(Some("yes")));
    assert!(!env_flag_enabled(None));
}

#[test]
fn the_configured_rate_defaults_to_one_hundred_and_is_at_least_one() {
    assert_eq!(configured_rate_limit_rps(None), 100);
    assert_eq!(configured_rate_limit_rps(Some("250")), 250);
    assert_eq!(configured_rate_limit_rps(Some("+7")), 7);
    assert_eq!(configured_rate_limit_rps(Some("0")), 1);
    assert_eq!(configured_rate_limit_rps(Some("many")), 100);
    assert_eq!(configured_rate_limit_rps(Some("4294967296")), 100);
    assert_eq!(configured_rate_limit_rps(Some("4294967295")), 4294967295);
}

#[test]
fn requests_are_counted_against_their_peer_or_trusted_forwarder() {
    assert_eq!(rate_limit_client_key(Some("10.0.0.1".to_string()), true, Some("1.1.1.1")), "10.0.0.1");
    assert_eq!(rate_limit_client_key(None, true, Some(" 2.2.2.2 , 3.3.3.3")), "2.2.2.2");
    assert_eq!(rate_limit_client_key(None, true, Some("4.4.4.4")), "4.4.4.4");
    assert_eq!(rate_limit_client_key(None, true, None), "unknown");
    assert_eq!(rate_limit_client_key(None, false, Some("2.2.2.2")), "unknown");
}

#[test]
fn limited_requests_get_a_problem_document() {
    let r = rate_limited_rejection(2500);
    assert_eq!(r.retry_after_secs, 2);
    assert_eq!(
        json_to_text(&r.problem),
        "{\"detail\":\"请求过于频繁，请在 2 秒后重试\",\"error_code\":\"RATE_LIMITED\",\"retryable\":true,\"status\":429,\"title\":\"请求过于频繁\",\"type\":\"rate-limited\"}"
    );
    let r = auth_rate_limited_rejection(6, 10_000);
    assert_eq!(r.retry_after_secs, 10);
    assert!(json_to_text(&r.problem).contains("\"detail\":\"登录尝试过于频繁（限制: 约每分钟 6 次）。请在 10 秒后重试\""));
    assert!(json_to_text(&r.problem).contains("\"error_code\":\"AUTH_RATE_LIMITED\""));
}

#[test]
fn unreadable_bodies_get_one_uniform_answer() {
    for status in [400u16, 415, 422] {
        let e = malformed_request_answer(status).unwrap();
        assert_eq!(e.status, 400);
        assert_eq!(e.code, "bad_request");
        assert!(e.message.starts_with("请求格式错误"));
    }
    assert!(malformed_request_answer(404).is_none());
    assert!(malformed_request_answer(200).is_none());
}
