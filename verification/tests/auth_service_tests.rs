use rabbitmq_consumer::config::{AuthConfig, ClientCredentials};
use rabbitmq_consumer::error::ErrorKind;
use rabbitmq_consumer::models::AuthResponse;
use rabbitmq_consumer::services::auth::{AuthService, TokenStep};

fn create_auth_config() -> AuthConfig {
    let mut config = AuthConfig::new("/auth/login".to_string(), 3600);
    config.add_credentials(
        "http://localhost:8080".to_string(),
        ClientCredentials { username: "testuser".to_string(), password: "testpass".to_string() },
    );
    config
}

#[test]
fn test_successful_authentication() {
    let server_url = "http://127.0.0.1:9000";
    let mut config = create_auth_config();
    config.add_credentials(
        server_url.to_string(),
        ClientCredentials { username: "testuser".to_string(), password: "testpass".to_string() },
    );
    let mut service = AuthService::new(config);

    let now = 1_700_000_000_000_000i64;
    assert!(service.lookup_in_range(server_url, now));
    assert!(service.cached_token_at(server_url, now, now).is_none());

    let request = service.login_request(server_url).unwrap();
    assert_eq!(request.url, "http://127.0.0.1:9000/auth/login");
    assert_eq!(request.body.username, "testuser");
    assert_eq!(request.body.password, "testpass");

    assert!(service.check_login_status(200).is_ok());
    let response = AuthResponse { token: "test_token_123".to_string(), expires_in: Some(3600) };
    let context = service.auth_context(server_url, response, now);
    assert_eq!(context.expires_at, Some(now + 3540 * 1_000_000));
    let token = service.store_token(server_url, context);
    assert_eq!(token, "test_token_123");

    assert_eq!(service.cached_token_at(server_url, now + 1, now + 1).as_deref(), Some("test_token_123"));
    assert!(service.cached_token_at(server_url, now + 3540 * 1_000_000, now).is_none());
    assert!(service.is_token_valid_at(server_url, now));
}

#[test]
fn test_authentication_failure() {
    let server_url = "http://127.0.0.1:9001";
    let mut config = create_auth_config();
    config.add_credentials(
        server_url.to_string(),
        ClientCredentials { username: "wronguser".to_string(), password: "wrongpass".to_string() },
    );
    let service = AuthService::new(config);
    assert!(service.login_request(server_url).is_ok());
    let result = service.check_login_status(401);
    assert!(result.is_err());
    let err = result.unwrap_err();
    assert_eq!(err.kind(), ErrorKind::AuthenticationFailed);
    assert_eq!(err.message(), "Authentication failed with status: 401 Unauthorized");
}

#[test]
fn unknown_client_has_no_credentials() {
    let service = AuthService::new(create_auth_config());
    let err = service.login_request("http://nowhere").err().unwrap();
    assert_eq!(err.kind(), ErrorKind::AuthenticationFailed);
    assert_eq!(err.message(), "No credentials found for client: http://nowhere");
    assert!(!service.is_token_valid("http://nowhere"));
    assert!(!service.is_token_valid_at("http://nowhere", 0));
}

#[test]
fn token_without_lifetime_uses_cache_duration() {
    let url = "http://localhost:8080";
    let mut service = AuthService::new(create_auth_config());
    let response = AuthResponse { token: "forever".to_string(), expires_in: None };
    let context = service.auth_context(url, response, 5);
    assert_eq!(context.expires_at, None);
    service.store_token(url, context);
    assert!(service.is_token_valid(url));
    assert!(service.is_token_valid_at(url, i64::MAX));
    let later = 1_000_000_000i64;
    assert!(service.lookup_in_range(url, later));
    assert_eq!(service.cached_token_at(url, later, later).as_deref(), Some("forever"));
    assert!(service.cached_token_at(url, later + 3600 * 1_000_000, later).is_none());
}

#[test]
fn storing_for_one_client_keeps_others() {
    let mut service = AuthService::new(create_auth_config());
    let a = service.auth_context("a", AuthResponse { token: "ta".to_string(), expires_in: Some(120) }, 0);
    service.store_token("a", a);
    let b = service.auth_context("b", AuthResponse { token: "tb".to_string(), expires_in: Some(120) }, 0);
    service.store_token("b", b);
    assert_eq!(service.cached_token_at("a", 10, 10).as_deref(), Some("ta"));
    assert_eq!(service.cached_token_at("b", 10, 10).as_deref(), Some("tb"));
    assert!(service.cached_token_at("a", 60_000_000, 0).is_none());
}

#[test]
fn huge_cache_duration_is_out_of_range() {
    let url = "u";
    let mut config = create_auth_config();
    config.token_cache_duration = 9_223_372_036_854_776;
    let mut service = AuthService::new(config);
    let context = service.auth_context(url, AuthResponse { token: "t".to_string(), expires_in: None }, 0);
    service.store_token(url, context);
    assert!(!service.lookup_in_range(url, 0));
}

#[test]
fn token_request_logs_in_once_then_serves_from_cache() {
    let url = "http://localhost:8080";
    let mut service = AuthService::new(create_auth_config());
    let now = 1_000_000_000_000i64;
    match service.begin_token_request(url, now, now).unwrap() {
        TokenStep::Login { request } => {
            assert_eq!(request.url, "http://localhost:8080/auth/login");
            assert_eq!(request.body.username, "testuser");
        }
        TokenStep::Cached { .. } => panic!("nothing is cached yet"),
    }
    let token = service.complete_login(
        url,
        AuthResponse { token: "fresh".to_string(), expires_in: Some(61) },
        now,
    );
    assert_eq!(token, "fresh");
    match service.begin_token_request(url, now + 999_999, now).unwrap() {
        TokenStep::Cached { token } => assert_eq!(token, "fresh"),
        TokenStep::Login { .. } => panic!("the token is still fresh"),
    }
    assert!(matches!(service.begin_token_request(url, now + 1_000_000, now).unwrap(), TokenStep::Login { .. }));
    assert!(service.begin_token_request("http://other", now, now).is_err());
    assert!(service.expiry_in_range(now, Some(3600)));
    assert!(service.expiry_in_range(now, None));
    assert!(!service.expiry_in_range(now, Some(i64::MAX)));
}

#[test]
fn token_with_expiry_is_judged_by_the_clock() {
    let url = "http://localhost:8080";
    let mut service = AuthService::new(create_auth_config());
    let past = service.auth_context(url, AuthResponse { token: "old".to_string(), expires_in: Some(60) }, 0);
    service.store_token(url, past);
    assert!(!service.is_token_valid(url));
    let now = chrono::Utc::now().timestamp_micros();
    let fresh = service.auth_context(url, AuthResponse { token: "new".to_string(), expires_in: Some(3600) }, now);
    service.store_token(url, fresh);
    assert!(service.is_token_valid(url));
}
