use stump_auth::error::APIError;
use stump_auth::token::{
    create_jwt_auth, exchange_refresh_token, extract_jti_from_refresh_token, extract_user_from_jwt,
    generate_access_token, generate_refresh_token, plan_exchange, ExchangeStep,
    RefreshTokenRecord, TokenConfig,
};

fn config() -> TokenConfig {
    TokenConfig {
        access_secret: b"access-secret-for-tests".to_vec(),
        refresh_secret: b"refresh-secret-for-tests".to_vec(),
        access_token_ttl: 3600,
        refresh_token_ttl: 86400,
    }
}

#[test]
fn access_token_verifies_within_ttl_only() {
    let cfg = config();
    let t = generate_access_token("user-1", 1_000, &cfg).unwrap();
    assert_eq!(t.expires_at, 4_600);
    assert_eq!(t.token.split('.').count(), 3);
    assert_eq!(extract_user_from_jwt(&t.token, 1_000, &cfg).unwrap(), "user-1");
    assert_eq!(extract_user_from_jwt(&t.token, 4_599, &cfg).unwrap(), "user-1");
    assert!(matches!(extract_user_from_jwt(&t.token, 4_600, &cfg), Err(APIError::Unauthorized)));
    assert!(matches!(extract_user_from_jwt(&t.token, 10_000, &cfg), Err(APIError::Unauthorized)));
}

#[test]
fn access_token_needs_the_access_secret() {
    let cfg = config();
    let t = generate_access_token("user-1", 1_000, &cfg).unwrap();
    let other = TokenConfig { access_secret: b"another-secret".to_vec(), ..config() };
    assert!(matches!(extract_user_from_jwt(&t.token, 1_000, &other), Err(APIError::Unauthorized)));
    // a refresh token is not an access token
    let (_, r) = generate_refresh_token("user-1", 1_000, &cfg).unwrap();
    assert!(matches!(extract_user_from_jwt(&r.token, 1_000, &cfg), Err(APIError::Unauthorized)));
}

#[test]
fn garbage_bearer_token_is_unauthorized() {
    let cfg = config();
    assert!(matches!(extract_user_from_jwt("garbage", 0, &cfg), Err(APIError::Unauthorized)));
    assert!(matches!(
        extract_jti_from_refresh_token("a.b.c", 0, &cfg),
        Err(APIError::Unauthorized)
    ));
}

#[test]
fn refresh_token_carries_its_jti() {
    let cfg = config();
    let (jti, t) = generate_refresh_token("user-2", 50, &cfg).unwrap();
    assert_eq!(jti.len(), 36);
    assert_eq!(t.expires_at, 86_450);
    assert_eq!(extract_jti_from_refresh_token(&t.token, 86_449, &cfg).unwrap(), jti);
    assert!(extract_jti_from_refresh_token(&t.token, 86_450, &cfg).is_err());
    let (jti2, _) = generate_refresh_token("user-2", 50, &cfg).unwrap();
    assert_ne!(jti, jti2);
}

#[test]
fn pair_reports_refresh_expiry() {
    let cfg = config();
    let (pair, record) = create_jwt_auth("user-3", 100, &cfg).unwrap();
    assert_eq!(pair.expires_at, 86_500);
    assert_eq!(record.expires_at, 86_500);
    assert_eq!(record.user_id, "user-3");
    assert_eq!(extract_user_from_jwt(&pair.access_token, 101, &cfg).unwrap(), "user-3");
    let refresh = pair.refresh_token.unwrap();
    assert_eq!(extract_jti_from_refresh_token(&refresh, 101, &cfg).unwrap(), record.id);
}

#[test]
fn overflowing_expiry_is_an_internal_error() {
    let cfg = config();
    assert!(matches!(
        generate_access_token("u", u64::MAX, &cfg),
        Err(APIError::InternalServerError(_))
    ));
    assert!(matches!(create_jwt_auth("u", u64::MAX - 10, &cfg), Err(APIError::InternalServerError(_))));
}

#[test]
fn generated_config_has_fresh_secrets() {
    let a = TokenConfig::generate(60, 120);
    let b = TokenConfig::generate(60, 120);
    assert_eq!(a.access_secret.len(), 60);
    assert_eq!(a.refresh_secret.len(), 60);
    assert!(a.access_secret.iter().all(|c| c.is_ascii_alphanumeric()));
    assert_ne!(a.access_secret, a.refresh_secret);
    assert_ne!(a.access_secret, b.access_secret);
    assert_eq!(a.access_token_ttl, 60);
    assert_eq!(a.refresh_token_ttl, 120);
}

fn record(expires_at: u64) -> RefreshTokenRecord {
    RefreshTokenRecord { id: "jti-1".to_string(), user_id: "user-4".to_string(), expires_at }
}

#[test]
fn exchange_of_unknown_jti_is_unauthorized() {
    let cfg = config();
    assert_eq!(plan_exchange(&None, 10), ExchangeStep::Unknown);
    assert!(matches!(exchange_refresh_token(&None, 10, &cfg), Err(APIError::Unauthorized)));
}

#[test]
fn exchange_of_expired_jti_revokes_it() {
    let cfg = config();
    let mut store = std::collections::HashMap::new();
    store.insert("jti-1".to_string(), record(99));
    let found = store.get("jti-1").map(|r| record(r.expires_at));
    assert_eq!(plan_exchange(&found, 100), ExchangeStep::Expired);
    assert!(matches!(exchange_refresh_token(&found, 100, &cfg), Err(APIError::Unauthorized)));
    store.remove("jti-1");
    // a second exchange finds nothing
    let found = store.get("jti-1").map(|r| record(r.expires_at));
    assert_eq!(plan_exchange(&found, 100), ExchangeStep::Unknown);
    assert!(matches!(exchange_refresh_token(&found, 100, &cfg), Err(APIError::Unauthorized)));
}

#[test]
fn exchange_of_live_jti_issues_for_its_user() {
    let cfg = config();
    let found = Some(record(100));
    assert_eq!(plan_exchange(&found, 100), ExchangeStep::Renew);
    let (pair, new_record) = exchange_refresh_token(&found, 100, &cfg).unwrap();
    assert_eq!(new_record.user_id, "user-4");
    assert_ne!(new_record.id, "jti-1");
    assert_eq!(pair.expires_at, 100 + 86_400);
    assert_eq!(extract_user_from_jwt(&pair.access_token, 200, &cfg).unwrap(), "user-4");
}
