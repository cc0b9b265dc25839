//! Tests of the token store: staleness, refresh decisions, and the
//! single-flight guarantee.

use laulud::auth::{
    AuthenticationToken, IdentityState, OAuthHandler, RefreshAction, UserId,
};
use laulud::error::ApiError;

fn token(secret: &str, refresh: Option<&str>, expires_at: i64) -> AuthenticationToken {
    AuthenticationToken {
        secret: secret.to_owned(),
        refresh_token: refresh.map(|s| s.to_owned()),
        expires_at,
    }
}

#[test]
fn staleness_respects_the_buffer_window() {
    let t = token("s", None, 1000);
    // The buffer is 60 seconds: the token counts as stale strictly past
    // expires_at - 60.
    assert!(!t.is_stale_at(939));
    assert!(!t.is_stale_at(940));
    assert!(t.is_stale_at(941));
    assert!(t.is_stale_at(2000));
}

#[test]
fn fresh_token_is_used_as_is() {
    let handler = OAuthHandler::new(token("live", Some("r"), 1000));
    match handler.plan_refresh(100) {
        Ok(RefreshAction::UseCurrent) => {}
        other => panic!("expected UseCurrent, got {:?}", other),
    }
    assert_eq!(handler.secret(), "live");
}

#[test]
fn stale_token_demands_the_stored_refresh_token() {
    let handler = OAuthHandler::new(token("old", Some("my-refresh"), 1000));
    match handler.plan_refresh(5000) {
        Ok(RefreshAction::Refresh { refresh_token }) => {
            assert_eq!(refresh_token, "my-refresh");
        }
        other => panic!("expected Refresh, got {:?}", other),
    }
}

#[test]
fn stale_token_without_refresh_token_is_terminal() {
    let handler = OAuthHandler::new(token("old", None, 1000));
    match handler.plan_refresh(5000) {
        Err(ApiError::NoRefreshToken) => {}
        other => panic!("expected NoRefreshToken, got {:?}", other),
    }
}

#[test]
fn successful_refresh_replaces_the_credential_wholesale() {
    let mut handler = OAuthHandler::new(token("old", Some("r1"), 1000));
    let outcome = Ok(token("new", Some("r2"), 9000));
    handler.complete_refresh(outcome).unwrap();
    assert_eq!(handler.secret(), "new");
    let t = handler.into_token();
    assert_eq!(t.refresh_token.as_deref(), Some("r2"));
    assert_eq!(t.expires_at, 9000);
}

#[test]
fn rejected_refresh_leaves_the_store_untouched() {
    let mut handler = OAuthHandler::new(token("old", Some("r1"), 1000));
    let outcome = Err("invalid_grant".to_owned());
    match handler.complete_refresh(outcome) {
        Err(ApiError::OauthErrorResponse { body }) => assert_eq!(body, "invalid_grant"),
        other => panic!("expected OauthErrorResponse, got {:?}", other),
    }
    assert_eq!(handler.secret(), "old");
}

#[test]
fn five_concurrent_callers_refresh_exactly_once() {
    // The stored token is already past its buffer threshold at `now`.
    let now: i64 = 10_000;
    let mut handler = OAuthHandler::new(token("expired", Some("r"), now - 10));
    let fresh = token("fresh-secret", Some("r"), now + 3600);
    let (secrets, provider_calls) = handler.serve_callers(5, now, &fresh);
    assert_eq!(provider_calls, 1);
    assert_eq!(secrets.len(), 5);
    for secret in &secrets {
        assert_eq!(secret, "fresh-secret");
    }
}

#[test]
fn fresh_token_never_touches_the_provider() {
    let now: i64 = 10_000;
    let mut handler = OAuthHandler::new(token("live", Some("r"), now + 3600));
    let unused = token("other", Some("r"), now + 3600);
    let (secrets, provider_calls) = handler.serve_callers(5, now, &unused);
    assert_eq!(provider_calls, 0);
    for secret in &secrets {
        assert_eq!(secret, "live");
    }
}

#[test]
fn from_identity_state_requires_login() {
    let logged_in = IdentityState::PostAuth {
        token: token("s", Some("r"), 1000),
        user_id: UserId("alice".to_owned()),
    };
    let handler = OAuthHandler::from_identity_state(logged_in).unwrap();
    assert_eq!(handler.secret(), "s");

    let during = IdentityState::DuringAuth { csrf_token: "c".to_owned(), next: None };
    match OAuthHandler::from_identity_state(during) {
        Err(ApiError::Unauthenticated) => {}
        other => panic!("expected Unauthenticated, got {:?}", other),
    }
}

#[test]
fn csrf_check_accepts_only_the_stored_token() {
    let state = IdentityState::DuringAuth { csrf_token: "tok123".to_owned(), next: None };
    assert!(state.verify_csrf("tok123").is_ok());
    assert!(matches!(state.verify_csrf("evil"), Err(ApiError::CsrfError)));
    let post = IdentityState::PostAuth {
        token: token("s", None, 0),
        user_id: UserId("u".to_owned()),
    };
    assert!(matches!(post.verify_csrf("tok123"), Err(ApiError::CsrfError)));
}

#[test]
fn next_route_defaults_to_root() {
    let with_next = IdentityState::DuringAuth {
        csrf_token: "c".to_owned(),
        next: Some("/home".to_owned()),
    };
    assert_eq!(with_next.next(), "/home");
    let without = IdentityState::DuringAuth { csrf_token: "c".to_owned(), next: None };
    assert_eq!(without.next(), "/");
}

#[test]
fn never_expiring_token_plans_no_refresh_at_any_clock_reading() {
    // Whatever instant the system clock reports, a token that never
    // expires is used as it stands.
    let handler = OAuthHandler::new(token("s", Some("r"), i64::MAX));
    let (_now, plan) = handler.plan_refresh_now();
    match plan {
        Ok(RefreshAction::UseCurrent) => {}
        other => panic!("expected UseCurrent, got {:?}", other),
    }
}

#[test]
fn token_built_from_a_provider_response() {
    let t = AuthenticationToken::from_response(
        "secret".to_owned(),
        Some("refresh".to_owned()),
        1_000,
        3_600,
    );
    assert_eq!(t.expires_at, 4_600);
    assert_eq!(t.secret, "secret");
}
