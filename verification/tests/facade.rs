use home_assistant_api::errors::Error;
use home_assistant_api::native_app::{update_sensor_request, NativeApp, NativeAppConfig};
use home_assistant_api::native_app::register_sensor_request;
use home_assistant_api::rest::{ApiRequest, HttpMethod, Outbound, Rest};
use home_assistant_api::types::{RefreshAccessTokenResponse, SensorRegistrationData, SensorUpdateData};
use home_assistant_api::{HomeAssistantAPI, TokenPlan};
use std::collections::HashMap;

fn session_with_long_lived(token: &str) -> HomeAssistantAPI {
    let mut s = HomeAssistantAPI::new("host".to_string(), "client".to_string());
    s.set_long_lived_token(token.to_string());
    s
}

fn session_with_oauth_expiring_at(expiry: u64) -> HomeAssistantAPI {
    let mut s = HomeAssistantAPI::new("host".to_string(), "client".to_string());
    s.set_oauth_token("tok".to_string(), 0, "ref".to_string(), expiry);
    s
}

fn ready(r: Result<Outbound, Error>) -> ApiRequest {
    match r {
        Ok(Outbound::Ready(a)) => a,
        _ => panic!("expected a ready call"),
    }
}

fn sensor_update_data() -> SensorUpdateData {
    SensorUpdateData {
        icon: "mdi:thermometer".to_string(),
        state: "21".to_string(),
        sensor_type: "sensor".to_string(),
        unique_id: "temp1".to_string(),
        attributes: HashMap::new(),
    }
}

#[test]
fn long_lived_call_proceeds_without_refresh() {
    let s = session_with_long_lived("abc");
    assert!(!s.needs_refresh(1_000_000));
    let a = ready(Rest::new().states(&s, 1_000_000));
    assert_eq!(a.authorization, "Bearer abc");
    assert_eq!(a.url, "http://host/api/states");
    assert!(matches!(a.method, HttpMethod::Get));
    assert!(a.query.is_empty());
}

#[test]
fn within_skew_window_call_proceeds_without_refresh() {
    let now: u64 = 10_000;
    let s = session_with_oauth_expiring_at(now - 5);
    assert!(!s.needs_refresh(now));
    let a = ready(Rest::new().states(&s, now));
    assert_eq!(a.authorization, "Bearer tok");
}

#[test]
fn stale_credential_triggers_exactly_one_refresh() {
    let now: u64 = 10_000;
    let mut s = session_with_oauth_expiring_at(now - 15);
    assert!(s.needs_refresh(now));
    let rest = Rest::new();

    // All three concurrent operations observe the stale credential under
    // shared access and ask for a refresh first.
    for _ in 0..3 {
        match rest.states(&s, now) {
            Ok(Outbound::RefreshFirst(req)) => {
                assert_eq!(req.grant_type, "refresh_token");
                assert_eq!(req.client_id, "client");
                assert_eq!(req.refresh_token, "ref");
            }
            _ => panic!("expected a refresh-first plan"),
        }
    }

    // Their exclusive sections run serialized; each re-checks staleness
    // before exchanging, so only the first one issues a refresh.
    let mut refreshes: u32 = 0;
    for _ in 0..3 {
        if let Some(req) = s.stale_refresh_request(now) {
            assert_eq!(req.refresh_token, "ref");
            let resp = RefreshAccessTokenResponse {
                access_token: "tok2".to_string(),
                expires_in: 1800,
                refresh_token: None,
                token_type: "Bearer".to_string(),
            };
            s.apply_refresh_outcome(Ok(resp), now).unwrap();
            refreshes += 1;
        }
    }
    assert_eq!(refreshes, 1);

    // Afterwards every operation observes the refreshed credential.
    for _ in 0..3 {
        assert!(!s.needs_refresh(now));
        let a = ready(rest.states(&s, now));
        assert_eq!(a.authorization, "Bearer tok2");
    }
}

#[test]
fn plan_token_read_on_absent_credential_fails() {
    let s = HomeAssistantAPI::new("host".to_string(), "client".to_string());
    assert!(matches!(s.plan_token_read(0), Err(Error::NoAuth())));
}

#[test]
fn plan_token_read_snapshots_fresh_token() {
    let s = session_with_long_lived("abc");
    match s.plan_token_read(123) {
        Ok(TokenPlan::Fresh(t)) => assert_eq!(t, "abc"),
        _ => panic!("expected a token snapshot"),
    }
}

#[test]
fn rest_get_endpoints() {
    let s = session_with_long_lived("abc");
    let rest = Rest::new();
    let now: u64 = 1;
    assert_eq!(ready(rest.check(&s, now)).url, "http://host/api/config");
    assert_eq!(ready(rest.config(&s, now)).url, "http://host/api/config");
    assert_eq!(ready(rest.discovery_info(&s, now)).url, "http://host/api/discovery_info");
    assert_eq!(ready(rest.events(&s, now)).url, "http://host/api/events");
    assert_eq!(ready(rest.services(&s, now)).url, "http://host/api/services");
    assert_eq!(ready(rest.error_log(&s, now)).url, "http://host/api/error_log");
    assert_eq!(
        ready(rest.state_of(&s, now, "light.kitchen".to_string())).url,
        "http://host/api/states/light.kitchen"
    );
    assert_eq!(
        ready(rest.camera_proxy(&s, now, "camera.porch".to_string())).url,
        "http://host/api/camera_proxy/camera.porch"
    );
}

#[test]
fn rest_post_endpoints() {
    let s = session_with_long_lived("abc");
    let rest = Rest::new();
    let now: u64 = 1;
    let a = ready(rest.state_change(&s, now, "light.kitchen".to_string()));
    assert_eq!(a.url, "http://host/api/states/light.kitchen");
    assert!(matches!(a.method, HttpMethod::Post));
    let b = ready(rest.event_fire(&s, now, "my_event".to_string()));
    assert_eq!(b.url, "http://host/api/events/my_event");
    assert!(matches!(b.method, HttpMethod::Post));
    let c = ready(rest.service_call(&s, now, "light".to_string(), "turn_on".to_string()));
    assert_eq!(c.url, "http://host/api/services/light/turn_on");
    assert!(matches!(c.method, HttpMethod::Post));
    let d = ready(rest.template_render(&s, now));
    assert_eq!(d.url, "http://host/api/template");
    let e = ready(rest.check_config(&s, now));
    assert_eq!(e.url, "http://host/api/config/core/check_config");
    assert!(matches!(e.method, HttpMethod::Post));
}

#[test]
fn history_period_builds_path_and_query() {
    let s = session_with_long_lived("abc");
    let a = ready(Rest::new().history_period(
        &s,
        1,
        Some("2023-01-02T03:04:05+00:00".to_string()),
        Some("light.kitchen".to_string()),
        Some("2023-01-03T00:00:00+00:00".to_string()),
        Some(true),
    ));
    assert_eq!(a.url, "http://host/api/history/period2023-01-02T03:04:05+00:00");
    assert_eq!(
        a.query,
        vec![
            ("filter_entity_id".to_string(), "light.kitchen".to_string()),
            ("end_time".to_string(), "2023-01-03T00:00:00+00:00".to_string()),
            ("significant_changes_only".to_string(), String::new()),
        ]
    );
}

#[test]
fn history_period_without_options() {
    let s = session_with_long_lived("abc");
    let a = ready(Rest::new().history_period(&s, 1, None, None, None, None));
    assert_eq!(a.url, "http://host/api/history/period");
    assert!(a.query.is_empty());
}

#[test]
fn history_period_minimal_appends_flag() {
    let s = session_with_long_lived("abc");
    let a = ready(Rest::new().history_period_minimal(&s, 1, None, None, None, None));
    assert_eq!(a.url, "http://host/api/history/period");
    assert_eq!(a.query, vec![("minimal_response".to_string(), String::new())]);
}

#[test]
fn logbook_builds_path_and_query() {
    let s = session_with_long_lived("abc");
    let a = ready(Rest::new().logbook(
        &s,
        1,
        None,
        "light.kitchen".to_string(),
        Some("2023-01-03T00:00:00+00:00".to_string()),
    ));
    assert_eq!(a.url, "http://host/api/logbook");
    assert_eq!(
        a.query,
        vec![
            ("entity".to_string(), "light.kitchen".to_string()),
            ("end_time".to_string(), "2023-01-03T00:00:00+00:00".to_string()),
        ]
    );
}

#[test]
fn register_machine_endpoint() {
    let s = session_with_long_lived("abc");
    let app = NativeApp::new();
    let a = ready(app.register_machine(&s, 1));
    assert_eq!(a.url, "http://host/api/mobile_app/registrations");
    assert!(matches!(a.method, HttpMethod::Post));
}

#[test]
fn sensor_update_before_registration_fails() {
    let s = session_with_long_lived("abc");
    let app = NativeApp::new();
    match app.update_sensor(&s, 1) {
        Err(Error::Config(m)) => assert_eq!(m, "missing webhook id"),
        _ => panic!("expected a configuration error"),
    }
}

#[test]
fn sensor_registration_before_registration_fails() {
    let s = session_with_long_lived("abc");
    let app = NativeApp::new();
    match app.register_sensor(&s, 1) {
        Err(Error::Config(m)) => assert_eq!(m, "expected webhook_id to exist"),
        _ => panic!("expected a configuration error"),
    }
}

#[test]
fn sensor_update_targets_registered_webhook() {
    let s = session_with_long_lived("abc");
    let mut app = NativeApp::new();
    app.set_webhook_info("wh1".to_string(), None, None);
    let a = ready(app.update_sensor(&s, 1));
    assert_eq!(a.url, "http://host/api/webhook/wh1");
    assert!(a.url.contains("wh1"));
    let b = ready(app.register_sensor(&s, 1));
    assert_eq!(b.url, "http://host/api/webhook/wh1");
}

#[test]
fn sensor_envelopes_carry_their_message_types() {
    let update = update_sensor_request(sensor_update_data());
    assert_eq!(update.request_type, "update_sensor_states");
    assert_eq!(update.data.unique_id, "temp1");
    let registration = register_sensor_request(SensorRegistrationData {
        device_class: None,
        icon: "mdi:thermometer".to_string(),
        name: "Temperature".to_string(),
        state: "21".to_string(),
        sensor_type: "sensor".to_string(),
        unique_id: "temp1".to_string(),
        unit_of_measurement: "C".to_string(),
        attributes: HashMap::new(),
    });
    assert_eq!(registration.request_type, "register_sensor");
}

#[test]
fn native_app_from_config_resumes_identity() {
    let app = NativeApp::from_config(NativeAppConfig {
        webhook_id: Some("wh1".to_string()),
        cloudhook_url: None,
        remote_ui_url: Some("https://remote".to_string()),
        secret: Some("app-secret".to_string()),
    });
    assert_eq!(app.webhook_id.as_deref(), Some("wh1"));
    assert_eq!(app.remote_ui_url.as_deref(), Some("https://remote"));
    assert_eq!(app.secret.as_deref(), Some("app-secret"));
}

#[test]
fn set_webhook_info_keeps_secret() {
    let mut app = NativeApp::from_config(NativeAppConfig {
        webhook_id: None,
        cloudhook_url: None,
        remote_ui_url: None,
        secret: Some("app-secret".to_string()),
    });
    app.set_webhook_info("wh2".to_string(), Some("https://cloud".to_string()), None);
    assert_eq!(app.webhook_id.as_deref(), Some("wh2"));
    assert_eq!(app.cloudhook_url.as_deref(), Some("https://cloud"));
    assert_eq!(app.secret.as_deref(), Some("app-secret"));
}

#[test]
fn stale_oauth_facade_asks_refresh_first() {
    let now: u64 = 10_000;
    let s = session_with_oauth_expiring_at(now - 15);
    let mut app = NativeApp::new();
    app.set_webhook_info("wh1".to_string(), None, None);
    assert!(matches!(app.update_sensor(&s, now), Ok(Outbound::RefreshFirst(_))));
    assert!(matches!(app.register_machine(&s, now), Ok(Outbound::RefreshFirst(_))));
}
