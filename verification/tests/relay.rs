use authentik_relay::action::{parse_action, Action};
use authentik_relay::config::{resolve_config, ConfigError};
use authentik_relay::error::{error_from_upstream, RelayError, UpstreamFailure};
use authentik_relay::events::{aggregate_events, sum_events, EventPoint, WINDOW_MS};
use authentik_relay::handlers::{events_response, user_count_response};
use authentik_relay::request::{auth_header_value, events_request, plan_events_request, users_request};
use authentik_relay::route::{action_param, route_path, Route};
use authentik_relay::config::Config;
use authentik_relay::users::users_from_count;

fn point(x_cord: i64, y_cord: u128) -> EventPoint {
    EventPoint { x_cord, y_cord }
}

fn test_config() -> Config {
    Config {
        base_url: String::from("https://idp.example/"),
        api_key: String::from("k3y"),
    }
}

#[test]
fn user_count_passes_through_unchanged() {
    for c in [0u64, 1, 42, 86_400_000, u64::MAX] {
        let u = users_from_count(c);
        assert_eq!(u.pagination.count, c);
        let r = user_count_response(Ok(c)).unwrap();
        assert_eq!(r.pagination.count, c);
    }
}

#[test]
fn windowed_sum_counts_exactly_the_points_in_the_window() {
    let now: i64 = 1_700_000_000_000;
    let events = vec![
        point(now - 90_000_000, 5),
        point(now - 50_000, 3),
        point(now, 7),
    ];
    assert_eq!(sum_events(&events, now), Some(10));
    let out = aggregate_events(&events, now).unwrap();
    assert_eq!(out, vec![point(now, 10)]);
}

#[test]
fn window_lower_bound_is_inclusive() {
    let now: i64 = 1_700_000_000_000;
    let at_boundary = vec![point(now - WINDOW_MS, 4)];
    assert_eq!(sum_events(&at_boundary, now), Some(4));
    let just_before = vec![point(now - WINDOW_MS - 1, 4)];
    assert_eq!(sum_events(&just_before, now), Some(0));
}

#[test]
fn points_after_now_still_count() {
    let now: i64 = 1_700_000_000_000;
    let events = vec![point(now + 1_000, 2), point(now - 1_000, 3)];
    assert_eq!(sum_events(&events, now), Some(5));
}

#[test]
fn empty_event_list_aggregates_to_single_zero_point() {
    let now: i64 = 1_700_000_000_000;
    let out = aggregate_events(&Vec::new(), now).unwrap();
    assert_eq!(out, vec![point(now, 0)]);
    let r = events_response(Ok(Vec::new()), now).unwrap();
    assert_eq!(r, vec![point(now, 0)]);
}

#[test]
fn overflowing_sum_is_reported_as_malformed() {
    let now: i64 = 1_700_000_000_000;
    let events = vec![point(now, u128::MAX), point(now, 1)];
    assert_eq!(sum_events(&events, now), None);
    assert_eq!(aggregate_events(&events, now), None);
    assert_eq!(
        events_response(Ok(events), now),
        Err(RelayError::UpstreamMalformed)
    );
}

#[test]
fn recognized_actions_parse_to_their_variants() {
    assert_eq!(parse_action("login"), Ok(Action::Login));
    assert_eq!(parse_action("login_failed"), Ok(Action::LoginFailed));
    assert_eq!(Action::Login.query_str(), "login");
    assert_eq!(Action::LoginFailed.query_str(), "login_failed");
}

#[test]
fn unrecognized_actions_are_rejected() {
    for raw in ["", "logout", "Login", "login ", "LOGIN_FAILED", "login_faile"] {
        assert_eq!(parse_action(raw), Err(RelayError::InvalidAction));
    }
}

#[test]
fn invalid_action_is_rejected_before_any_request_is_planned() {
    let cfg = test_config();
    let planned = plan_events_request(&cfg, "logout");
    match planned {
        Err(e) => assert_eq!(e, RelayError::InvalidAction),
        Ok(_) => panic!("an unrecognized action must not produce an outbound request"),
    }
    assert_eq!(RelayError::InvalidAction.status_code(), 400);
    assert!(RelayError::InvalidAction.is_client_error());
}

#[test]
fn users_request_has_exact_url_and_token() {
    let cfg = test_config();
    let r = users_request(&cfg);
    assert_eq!(r.url, "https://idp.example/api/v3/core/users/");
    assert_eq!(r.bearer_token, "k3y");
}

#[test]
fn events_request_has_exact_url_for_each_action() {
    let cfg = test_config();
    let r = events_request(&cfg, &Action::Login);
    assert_eq!(
        r.url,
        "https://idp.example/api/v3/events/events/per_month/?action=login&query={}"
    );
    let r = events_request(&cfg, &Action::LoginFailed);
    assert_eq!(
        r.url,
        "https://idp.example/api/v3/events/events/per_month/?action=login_failed&query={}"
    );
    assert_eq!(r.bearer_token, "k3y");

    let planned = plan_events_request(&cfg, "login").unwrap();
    assert_eq!(
        planned.url,
        "https://idp.example/api/v3/events/events/per_month/?action=login&query={}"
    );
}

#[test]
fn auth_header_is_bearer_plus_key() {
    assert_eq!(auth_header_value("abc"), "Bearer abc");
    assert_eq!(auth_header_value(""), "Bearer ");
}

#[test]
fn upstream_failures_become_error_responses_and_serving_continues() {
    let r = user_count_response(Err(UpstreamFailure::Unreachable));
    assert_eq!(r, Err(RelayError::UpstreamUnreachable));
    assert_eq!(RelayError::UpstreamUnreachable.status_code(), 502);

    let now: i64 = 1_700_000_000_000;
    let r = events_response(Err(UpstreamFailure::Malformed), now);
    assert_eq!(r, Err(RelayError::UpstreamMalformed));
    assert_eq!(RelayError::UpstreamMalformed.status_code(), 502);

    assert_eq!(
        error_from_upstream(UpstreamFailure::Unreachable),
        RelayError::UpstreamUnreachable
    );
    assert_eq!(
        error_from_upstream(UpstreamFailure::Malformed),
        RelayError::UpstreamMalformed
    );

    // A later request on the same state still succeeds.
    let ok = user_count_response(Ok(3)).unwrap();
    assert_eq!(ok.pagination.count, 3);
    let ok = events_response(Ok(vec![point(now, 2)]), now).unwrap();
    assert_eq!(ok, vec![point(now, 2)]);
}

#[test]
fn environment_wins_over_file_for_both_keys() {
    let cfg = resolve_config(
        Some("file-url/".into()),
        Some("file-key".into()),
        Some("env-url/".into()),
        Some("env-key".into()),
    )
    .unwrap();
    assert_eq!(cfg.base_url, "env-url/");
    assert_eq!(cfg.api_key, "env-key");
}

#[test]
fn file_values_are_used_when_environment_is_absent() {
    let cfg = resolve_config(Some("file-url/".into()), Some("file-key".into()), None, None)
        .unwrap();
    assert_eq!(cfg.base_url, "file-url/");
    assert_eq!(cfg.api_key, "file-key");
}

#[test]
fn sources_may_mix_per_key() {
    let cfg = resolve_config(Some("file-url/".into()), None, None, Some("env-key".into()))
        .unwrap();
    assert_eq!(cfg.base_url, "file-url/");
    assert_eq!(cfg.api_key, "env-key");
}

#[test]
fn missing_keys_are_fatal_with_the_right_diagnostic() {
    let r = resolve_config(None, Some("file-key".into()), None, None);
    assert_eq!(r.err(), Some(ConfigError::MissingBaseUrl));
    let r = resolve_config(Some("file-url/".into()), None, None, None);
    assert_eq!(r.err(), Some(ConfigError::MissingApiKey));
    let r = resolve_config(None, None, None, None);
    assert_eq!(r.err(), Some(ConfigError::MissingBaseUrl));
}

#[test]
fn error_names_are_machine_readable() {
    assert_eq!(RelayError::InvalidAction.error_name(), "invalid_action");
    assert_eq!(
        RelayError::UpstreamUnreachable.error_name(),
        "upstream_unreachable"
    );
    assert_eq!(
        RelayError::UpstreamMalformed.error_name(),
        "upstream_malformed"
    );
}

#[test]
fn paths_route_to_their_handlers() {
    assert_eq!(route_path("/api/v3/core/users"), Route::UserCount);
    assert_eq!(
        route_path("/api/v3/events/events/per_month"),
        Route::EventsPerMonth
    );
    assert_eq!(route_path("/api/v3/core/users/"), Route::Unknown);
    assert_eq!(route_path("/"), Route::Unknown);
}

#[test]
fn action_parameter_is_extracted_from_the_query() {
    assert_eq!(action_param("action=login"), Some("login"));
    assert_eq!(action_param("action=logout"), Some("logout"));
    assert_eq!(action_param("action="), Some(""));
    assert_eq!(action_param(""), None);
    assert_eq!(action_param("act=login"), None);
    assert_eq!(action_param("other=1"), None);
}
