use vrmemoir::api::{
    after_auto_login, api_error_message, api_url, basic_auth_header, check_auth_outcome,
    choose_tfa_type, initial_cookie, is_locked_out, lockout_message, login_outcome,
    merge_cookies, next_request_step, not_logged_in, proxy_url, start_login,
    startup_should_login, tfa_endpoint, tfa_result, unauthorized_reply, user_endpoint, user_groups_endpoint,
    AuthReply, AutoLoginLimiter, LoginStart, LoginStatus, RequestStep,
};
use vrmemoir::stamps::StampMap;

fn reply(code: u16, tfa: Option<Vec<Option<&str>>>, err: Option<&str>) -> AuthReply {
    AuthReply {
        status_code: code,
        tfa: tfa.map(|v| v.into_iter().map(|m| m.map(|s| s.to_string())).collect()),
        error_message: err.map(|s| s.to_string()),
        body: "{\"id\":\"usr_1\"}".to_string(),
    }
}

#[test]
fn cookies_merge_with_the_last_value_winning() {
    let merged = merge_cookies(
        "a=1; b=2",
        &["b=3; Path=/".to_string(), "c=4; HttpOnly".to_string(), "bad".to_string()],
    );
    assert_eq!(merged, "a=1; b=3; c=4");
    assert_eq!(merge_cookies("", &[]), "");
    assert_eq!(merge_cookies("x=; =y; k=v=w", &[]), "k=v=w");
    assert_eq!(merge_cookies("auth=old", &["auth=new".to_string(), "auth=newer".to_string()]), "auth=newer");
}

#[test]
fn basic_credentials() {
    assert_eq!(basic_auth_header("user", "pass"), "Basic dXNlcjpwYXNz");
    assert_eq!(basic_auth_header("a b", "p@ss"), "Basic YSUyMGI6cCU0MHNz");
    assert_eq!(basic_auth_header("ü", "x"), "Basic JUMzJUJDOng=");
    assert_eq!(basic_auth_header("a", "b"), "Basic YTpi");
}

#[test]
fn login_replies() {
    let r = login_outcome(&reply(200, Some(vec![Some("emailOtp"), None]), None));
    assert_eq!(r.status, LoginStatus::TwoFactor);
    assert_eq!(r.requires_two_factor_auth, Some(vec!["emailOtp".to_string()]));
    assert_eq!(r.user, None);
    let r = login_outcome(&reply(200, Some(vec![]), None));
    assert_eq!(r.status, LoginStatus::Success);
    assert_eq!(r.user, Some("{\"id\":\"usr_1\"}".to_string()));
    let r = login_outcome(&reply(401, Some(vec![]), None));
    assert_eq!(r.status, LoginStatus::TwoFactor);
    assert_eq!(r.requires_two_factor_auth, Some(vec![]));
    let r = login_outcome(&reply(401, None, Some("Invalid Username")));
    assert_eq!(r.status, LoginStatus::Failed);
    assert_eq!(r.message, Some("Invalid Username".to_string()));
    let r = login_outcome(&reply(500, None, None));
    assert_eq!(r.message, Some("Login failed with status 500".to_string()));
}

#[test]
fn session_check_replies() {
    let r = check_auth_outcome(&reply(403, None, Some("x")));
    assert_eq!(r.status, LoginStatus::Failed);
    assert_eq!(r.message, Some("Not logged in".to_string()));
    let r = check_auth_outcome(&reply(204, None, None));
    assert_eq!(r.status, LoginStatus::Success);
    assert_eq!(not_logged_in().message, Some("Not logged in".to_string()));
}

#[test]
fn login_start() {
    match start_login(true, Some("u"), Some("p"), &None, &None) {
        LoginStart::Refused(r) => assert_eq!(r.message, Some("Login already in progress".to_string())),
        _ => panic!("should refuse"),
    }
    match start_login(false, None, Some("p"), &None, &None) {
        LoginStart::Refused(r) => assert_eq!(r.message, Some("Missing credentials".to_string())),
        _ => panic!("should refuse"),
    }
    match start_login(false, None, None, &Some("cu".to_string()), &Some("cp".to_string())) {
        LoginStart::Credentials { username, password } => {
            assert_eq!(username, "cu");
            assert_eq!(password, "cp");
        }
        _ => panic!("should start"),
    }
}

#[test]
fn three_automatic_logins_an_hour() {
    let hour = 3_600_000_000_000u64;
    let mut l = AutoLoginLimiter::new();
    assert!(l.try_attempt(10));
    assert!(l.try_attempt(20));
    assert!(l.try_attempt(30));
    assert!(!l.try_attempt(40));
    assert_eq!(l.attempts().to_vec(), vec![10, 20, 30]);
    assert!(l.try_attempt(hour + 25));
    assert_eq!(l.attempts().to_vec(), vec![30, hour + 25]);
}

#[test]
fn failing_endpoints_are_locked_out_for_a_minute() {
    let mut failed = StampMap::new();
    failed.set("users/1", 100);
    assert!(is_locked_out(&failed, "users/1", 100 + 59_999_999_999));
    assert!(!is_locked_out(&failed, "users/1", 100 + 60_000_000_000));
    assert!(!is_locked_out(&failed, "users/2", 100));
    assert_eq!(lockout_message("users/1"), "Endpoint users/1 is in lockout period");
}

#[test]
fn request_steps() {
    assert_eq!(next_request_step(401, true, true), RequestStep::TwoFactorRequired);
    assert_eq!(next_request_step(401, false, true), RequestStep::AutoLogin);
    assert_eq!(next_request_step(401, false, false), RequestStep::Unauthorized);
    assert_eq!(next_request_step(404, false, false), RequestStep::ApiError { lock_endpoint: true });
    assert_eq!(next_request_step(403, false, false), RequestStep::ApiError { lock_endpoint: true });
    assert_eq!(next_request_step(500, false, false), RequestStep::ApiError { lock_endpoint: false });
    assert_eq!(next_request_step(200, false, false), RequestStep::Success);
    assert_eq!(api_error_message(500, "oops"), "API error 500: oops");
    assert_eq!(after_auto_login(LoginStatus::Success), None);
    assert_eq!(after_auto_login(LoginStatus::TwoFactor), Some("2FA_REQUIRED".to_string()));
    assert_eq!(after_auto_login(LoginStatus::Failed), Some("Auto-login failed".to_string()));
}

#[test]
fn endpoints_and_second_factor() {
    assert_eq!(api_url("config"), "https://api.vrchat.cloud/api/1/config");
    assert_eq!(user_endpoint("usr_1"), "users/usr_1");
    assert_eq!(user_groups_endpoint("usr_1"), "users/usr_1/groups");
    assert_eq!(tfa_endpoint("totp"), "auth/twofactorauth/totp/verify");
    assert_eq!(choose_tfa_type(&["totp".to_string(), "emailOtp".to_string()]), "emailotp");
    assert_eq!(choose_tfa_type(&["otp".to_string()]), "otp");
    assert_eq!(choose_tfa_type(&["totp".to_string(), "otp".to_string()]), "totp");
    assert_eq!(choose_tfa_type(&[]), "emailotp");
    assert_eq!(tfa_result(false, None).message, Some("Verification failed".to_string()));
    assert_eq!(tfa_result(true, Some("u".to_string())).status, LoginStatus::Success);
}

#[test]
fn proxy_and_cookie_settings() {
    assert_eq!(proxy_url(Some("127.0.0.1:1080")), Some("socks5://127.0.0.1:1080".to_string()));
    assert_eq!(proxy_url(Some("http://p:1")), Some("http://p:1".to_string()));
    assert_eq!(proxy_url(Some("   ")), None);
    assert_eq!(proxy_url(None), None);
    assert_eq!(initial_cookie(Some(String::new()), Some("env".to_string())), "env");
    assert_eq!(initial_cookie(Some("saved".to_string()), Some("env".to_string())), "saved");
    assert_eq!(initial_cookie(None, None), "");
    assert!(startup_should_login(LoginStatus::Failed, true));
    assert!(!startup_should_login(LoginStatus::Failed, false));
    assert!(!startup_should_login(LoginStatus::TwoFactor, true));
}

#[test]
fn unauthorized_replies_log_in_at_most_three_times_an_hour() {
    let mut l = AutoLoginLimiter::new();
    assert_eq!(unauthorized_reply(true, true, &mut l, 10), Some("2FA_REQUIRED".to_string()));
    assert_eq!(unauthorized_reply(false, false, &mut l, 10), Some("Unauthorized".to_string()));
    assert!(l.attempts().is_empty());
    assert_eq!(unauthorized_reply(false, true, &mut l, 10), None);
    assert_eq!(unauthorized_reply(false, true, &mut l, 20), None);
    assert_eq!(unauthorized_reply(false, true, &mut l, 30), None);
    assert_eq!(
        unauthorized_reply(false, true, &mut l, 40),
        Some("Unauthorized (auto-login rate limited)".to_string())
    );
    assert_eq!(l.attempts().to_vec(), vec![10, 20, 30]);
    let later = 3_600_000_000_000 + 15;
    assert_eq!(unauthorized_reply(false, true, &mut l, later), None);
    assert_eq!(l.attempts().to_vec(), vec![20, 30, later]);
    assert_eq!(after_auto_login(LoginStatus::Failed), Some("Auto-login failed".to_string()));
}
