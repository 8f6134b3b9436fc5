use rustwave::auth::authenticate_plan;
use rustwave::auth::classify_api_error;
use rustwave::auth::classify_refresh_error;
use rustwave::auth::ApiErrorClass;
use rustwave::auth::AuthError;
use rustwave::auth::AuthPage;
use rustwave::auth::AuthPlan;
use rustwave::auth::StoredToken;
use rustwave::auth::TokenGrant;
use rustwave::auth::TokenManager;

fn stored(access: &str, refresh: Option<&str>, expires_at: Option<u64>) -> StoredToken {
    StoredToken {
        access_token: access.to_string(),
        refresh_token: refresh.map(|s| s.to_string()),
        expires_at,
        token_type: "Bearer".to_string(),
        created_at: 1_700_000_000,
    }
}

fn grant(access: &str, refresh: Option<&str>) -> TokenGrant {
    TokenGrant {
        access_token: access.to_string(),
        refresh_token: refresh.map(|s| s.to_string()),
        expires_in: Some(3_600),
    }
}

#[test]
fn refresh_errors_are_classified_by_known_codes() {
    assert_eq!(
        classify_refresh_error("server said: invalid_grant (expired)"),
        AuthError::OAuth("invalid_grant".to_string())
    );
    assert_eq!(
        classify_refresh_error("invalid_client"),
        AuthError::OAuth(
            "Invalid client credentials. Check CLIENT_ID and CLIENT_SECRET.".to_string()
        )
    );
    assert_eq!(
        classify_refresh_error("unauthorized_client"),
        AuthError::OAuth("Client not authorized to refresh tokens.".to_string())
    );
    assert_eq!(
        classify_refresh_error("timed out"),
        AuthError::OAuth("OAuth refresh failed: timed out".to_string())
    );
}

#[test]
fn api_errors_split_into_auth_rate_and_other() {
    assert_eq!(classify_api_error("HTTP 401 error: nope"), ApiErrorClass::Auth);
    assert_eq!(classify_api_error("HTTP 403 error"), ApiErrorClass::Auth);
    assert_eq!(classify_api_error("Unauthorized"), ApiErrorClass::Auth);
    assert_eq!(classify_api_error("HTTP 429 error"), ApiErrorClass::RateLimited);
    assert_eq!(classify_api_error("Rate limit hit"), ApiErrorClass::RateLimited);
    assert_eq!(classify_api_error("connection reset"), ApiErrorClass::Other);
}

#[test]
fn error_messages_name_their_kind() {
    assert_eq!(AuthError::Io("disk full".to_string()).message(), "IO error: disk full");
    assert_eq!(AuthError::Json("bad record".to_string()).message(), "JSON error: bad record");
    assert_eq!(AuthError::OAuth("invalid_grant".to_string()).message(), "OAuth error: invalid_grant");
    assert_eq!(AuthError::Other("odd".to_string()).message(), "Error: odd");
}

#[test]
fn from_token_response_fills_expiry_and_type() {
    let t = StoredToken::from_token_response(grant("acc", Some("ref")), 1_000);
    assert_eq!(t.access_token, "acc");
    assert_eq!(t.refresh_token, Some("ref".to_string()));
    assert_eq!(t.expires_at, Some(4_600));
    assert_eq!(t.token_type, "Bearer");
    assert_eq!(t.created_at, 1_000);

    let mut g = grant("acc", None);
    g.expires_in = None;
    let t2 = StoredToken::from_token_response(g, 1_000);
    assert_eq!(t2.expires_at, None);
    assert_eq!(t2.refresh_token, None);
}

#[test]
fn expiry_is_compared_against_now() {
    let t = stored("a", None, Some(100));
    assert!(t.is_expired_at(100));
    assert!(t.is_expired_at(101));
    assert!(!t.is_expired_at(99));
    let never = stored("a", None, None);
    assert!(!never.is_expired_at(u64::MAX));
}

#[test]
fn a_past_expiry_reports_expired_by_the_clock() {
    let t = stored("a", None, Some(1));
    assert!(t.is_expired());
}

#[test]
fn refresh_token_age_in_days() {
    let t = stored("a", None, None);
    assert_eq!(t.get_refresh_token_age_days(1_700_000_000 + 86_400 * 3 + 5), 3);
    assert_eq!(t.get_refresh_token_age_days(0), 0);
    assert!(!t.is_refresh_token_old(1_700_000_000 + 86_400 * 30));
    assert!(t.is_refresh_token_old(1_700_000_000 + 86_400 * 31));
}

#[test]
fn manager_hands_out_cached_token_without_refreshing() {
    let m = TokenManager::new("tok".to_string(), Some("ref".to_string()));
    assert_eq!(m.get_access_token(), "tok");
}

#[test]
fn disk_record_overrides_in_memory_refresh_token() {
    let m = TokenManager::new("tok".to_string(), Some("mine".to_string()));
    let loaded = Some(stored("other", Some("rotated"), None));
    assert_eq!(m.refresh_token_to_use(&loaded), Some("rotated".to_string()));
    assert_eq!(m.refresh_token_to_use(&None), Some("mine".to_string()));
    let loaded_without = Some(stored("other", None, None));
    assert_eq!(m.refresh_token_to_use(&loaded_without), None);
}

#[test]
fn scenario_rejected_refresh_leaves_shared_token_untouched() {
    // A stored refresh token exists, the authorization server answers
    // invalid_grant: the call reports exactly that and the shared
    // access-token cell is not modified.
    let mut m = TokenManager::new("old-token".to_string(), Some("ref".to_string()));
    let r = m.get_fresh_token(
        Some(stored("ignored", Some("stored-ref"), None)),
        Err("error response: invalid_grant".to_string()),
        Ok(()),
    );
    assert_eq!(r, Err(AuthError::OAuth("invalid_grant".to_string())));
    assert_eq!(m.get_access_token(), "old-token");
}

#[test]
fn without_refresh_token_the_stale_token_is_returned() {
    let mut m = TokenManager::new("tok".to_string(), None);
    let r = m.get_fresh_token(None, Err("unused".to_string()), Ok(()));
    assert_eq!(r, Ok("tok".to_string()));
}

#[test]
fn successful_refresh_swaps_token_and_retains_rotation() {
    let mut m = TokenManager::new("old".to_string(), Some("ref-1".to_string()));
    let r = m.get_fresh_token(None, Ok(grant("new", Some("ref-2"))), Ok(()));
    assert_eq!(r, Ok("new".to_string()));
    assert_eq!(m.get_access_token(), "new");
    assert_eq!(m.refresh_token_to_use(&None), Some("ref-2".to_string()));
}

#[test]
fn successful_refresh_without_rotation_keeps_old_refresh_token() {
    let mut m = TokenManager::new("old".to_string(), Some("ref-1".to_string()));
    let r = m.get_fresh_token(None, Ok(grant("new", None)), Ok(()));
    assert_eq!(r, Ok("new".to_string()));
    assert_eq!(m.refresh_token_to_use(&None), Some("ref-1".to_string()));
}

#[test]
fn failed_save_surfaces_its_error_and_keeps_state() {
    let mut m = TokenManager::new("old".to_string(), Some("ref".to_string()));
    let r = m.get_fresh_token(
        None,
        Ok(grant("new", Some("ref-2"))),
        Err(AuthError::Io("disk full".to_string())),
    );
    assert_eq!(r, Err(AuthError::Io("disk full".to_string())));
    assert_eq!(m.get_access_token(), "old");
    assert_eq!(m.refresh_token_to_use(&None), Some("ref".to_string()));
}

#[test]
fn auth_error_recovery_needs_a_refresh_token() {
    let mut m = TokenManager::new("tok".to_string(), None);
    let r = m.handle_auth_error(Ok(grant("new", None)), Ok(()));
    assert_eq!(
        r,
        Err(AuthError::OAuth("Token refresh failed, need to re-authenticate".to_string()))
    );
    assert_eq!(m.get_access_token(), "tok");
}

#[test]
fn auth_error_recovery_refreshes_with_own_token() {
    let mut m = TokenManager::new("tok".to_string(), Some("ref".to_string()));
    assert_eq!(m.handle_auth_error(Ok(grant("new", None)), Ok(())), Ok(()));
    assert_eq!(m.get_access_token(), "new");
}

#[test]
fn auth_error_recovery_reports_rejected_exchange() {
    let mut m = TokenManager::new("tok".to_string(), Some("ref".to_string()));
    let r = m.handle_auth_error(Err("invalid_grant".to_string()), Ok(()));
    assert_eq!(
        r,
        Err(AuthError::OAuth("Failed to refresh token after auth error".to_string()))
    );
    assert_eq!(m.get_access_token(), "tok");
}

#[test]
fn startup_uses_cached_unexpired_credential() {
    let st = stored("acc", Some("ref"), Some(2_000));
    assert_eq!(authenticate_plan(Some(st.clone()), 1_000), AuthPlan::UseCached(st));
}

#[test]
fn startup_refreshes_expired_credential_with_refresh_token() {
    let st = stored("acc", Some("ref"), Some(2_000));
    assert_eq!(authenticate_plan(Some(st), 3_000), AuthPlan::TryRefresh("ref".to_string()));
}

#[test]
fn startup_falls_back_to_full_flow() {
    assert_eq!(authenticate_plan(None, 1_000), AuthPlan::FullAuth);
    let st = stored("acc", None, Some(500));
    assert_eq!(authenticate_plan(Some(st), 1_000), AuthPlan::FullAuth);
}

#[test]
fn auth_page_status_lines() {
    let mut page = AuthPage::new();
    assert_eq!(page.status_text(), "Not logged in");
    page.jwt = "authenticating".to_string();
    assert_eq!(page.status_text(), "Authenticating...");
    page.jwt = "authenticated".to_string();
    assert_eq!(page.status_text(), "Authenticated!");
    page.jwt = "error: the server hung up".to_string();
    assert_eq!(page.status_text(), "error: the server hung up");
    page.jwt = "garbage".to_string();
    assert_eq!(page.status_text(), "Unknown state");
}
