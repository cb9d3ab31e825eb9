use pcloud::pcloud_client::{
    get_api_server_request, get_best_api_server, login_request, login_token_from_userinfo,
    logout_request, logout_succeeded, PCloudClient, ReleaseAction, SessionLifecycle, SessionState,
};
use pcloud::pcloud_model::{ApiServers, LogoutResponse, PCloudResult, UserInfo};
use pcloud::request::{ApiOperation, ParamKey, QueryValue};

fn userinfo(result: PCloudResult, auth: Option<&str>) -> UserInfo {
    UserInfo {
        result,
        auth: auth.map(String::from),
        userid: Some(1),
        email: None,
        emailverified: None,
        registered: None,
        language: None,
        premium: None,
        usedquota: None,
        quota: None,
    }
}

#[test]
fn releasing_n_clones_revokes_exactly_once() {
    let n = 5;
    let mut lifecycle = SessionLifecycle::unauthenticated();
    lifecycle.begin_login();
    lifecycle.activate(String::from("tok"), String::from("https://api.pcloud.com"));
    for _ in 1..n {
        lifecycle.add_ref();
    }
    let mut revokes = 0;
    for _ in 0..n {
        match lifecycle.release() {
            ReleaseAction::NoAction => {}
            ReleaseAction::Revoke { token, api_host } => {
                revokes += 1;
                assert_eq!(token, "tok");
                assert_eq!(api_host, "https://api.pcloud.com");
                lifecycle.finish_revoke(false);
            }
        }
    }
    assert_eq!(revokes, 1);
    assert!(matches!(lifecycle.state, SessionState::Revoked));
}

#[test]
fn revoke_fires_only_on_the_last_release() {
    let mut lifecycle = SessionLifecycle::unauthenticated();
    lifecycle.activate(String::from("t"), String::from("h"));
    lifecycle.add_ref();
    lifecycle.add_ref();
    assert!(matches!(lifecycle.release(), ReleaseAction::NoAction));
    assert!(matches!(lifecycle.release(), ReleaseAction::NoAction));
    assert!(matches!(lifecycle.release(), ReleaseAction::Revoke { .. }));
}

#[test]
fn stateless_lifecycle_never_revokes() {
    let mut lifecycle = SessionLifecycle::stateless();
    for _ in 0..4 {
        assert!(matches!(lifecycle.release(), ReleaseAction::NoAction));
    }
    assert!(matches!(lifecycle.state, SessionState::Stateless));
}

#[test]
fn failed_login_returns_access_denied_and_resets() {
    let mut lifecycle = SessionLifecycle::unauthenticated();
    lifecycle.begin_login();
    let e = lifecycle.login_failed();
    assert_eq!(e, PCloudResult::AccessDenied);
    assert!(matches!(lifecycle.state, SessionState::Unauthenticated));
}

#[test]
fn login_token_extraction() {
    let ok = userinfo(PCloudResult::Success, Some("tok"));
    assert_eq!(login_token_from_userinfo(ok).unwrap(), "tok");

    let no_auth = userinfo(PCloudResult::Success, None);
    assert_eq!(
        login_token_from_userinfo(no_auth).unwrap_err(),
        PCloudResult::AccessDenied
    );

    let failed = userinfo(PCloudResult::LoginFailed, Some("tok"));
    assert_eq!(
        login_token_from_userinfo(failed).unwrap_err(),
        PCloudResult::AccessDenied
    );
}

#[test]
fn login_request_carries_credentials_and_getauth() {
    let plan = login_request(String::from("user"), String::from("pass"));
    assert_eq!(plan.operation, ApiOperation::UserInfo);
    assert_eq!(plan.params.len(), 3);
    assert_eq!(plan.params[0].key, ParamKey::GetAuth);
    assert_eq!(plan.params[1].value, QueryValue::Text(String::from("user")));
    assert_eq!(plan.params[2].value, QueryValue::Text(String::from("pass")));
    assert_eq!(ParamKey::GetAuth.wire_name(), "getauth");
}

#[test]
fn logout_request_carries_token() {
    let plan = logout_request(String::from("tok"));
    assert_eq!(plan.operation, ApiOperation::Logout);
    assert_eq!(plan.params.len(), 1);
    assert_eq!(plan.params[0].key, ParamKey::Auth);
    assert_eq!(plan.params[0].value, QueryValue::Text(String::from("tok")));
}

#[test]
fn logout_succeeded_requires_deleted_token() {
    let good = LogoutResponse {
        result: PCloudResult::Success,
        auth_deleted: Some(true),
    };
    assert!(logout_succeeded(&good));

    let not_deleted = LogoutResponse {
        result: PCloudResult::Success,
        auth_deleted: Some(false),
    };
    assert!(!logout_succeeded(&not_deleted));

    let failed = LogoutResponse {
        result: PCloudResult::InternalError,
        auth_deleted: Some(true),
    };
    assert!(!logout_succeeded(&failed));

    let silent = LogoutResponse {
        result: PCloudResult::Success,
        auth_deleted: None,
    };
    assert!(!logout_succeeded(&silent));
}

#[test]
fn best_api_server_picks_first_candidate_on_success() {
    let discovery = ApiServers {
        result: PCloudResult::Success,
        binapi: Vec::new(),
        api: vec![
            String::from("eapi1.pcloud.com"),
            String::from("eapi2.pcloud.com"),
        ],
    };
    let host = get_best_api_server("https://api.pcloud.com", Some(&discovery));
    assert_eq!(host, "https://eapi1.pcloud.com");
}

#[test]
fn best_api_server_falls_back_on_failure() {
    let failed = ApiServers {
        result: PCloudResult::InternalError,
        binapi: Vec::new(),
        api: vec![String::from("eapi1.pcloud.com")],
    };
    assert_eq!(
        get_best_api_server("https://api.pcloud.com", Some(&failed)),
        "https://api.pcloud.com"
    );

    let empty = ApiServers {
        result: PCloudResult::Success,
        binapi: Vec::new(),
        api: Vec::new(),
    };
    assert_eq!(
        get_best_api_server("https://api.pcloud.com", Some(&empty)),
        "https://api.pcloud.com"
    );

    assert_eq!(
        get_best_api_server("https://api.pcloud.com", None),
        "https://api.pcloud.com"
    );
}

#[test]
fn api_server_request_attaches_token_only_when_present() {
    let plan = get_api_server_request(Some(String::from("tok")));
    assert_eq!(plan.operation, ApiOperation::GetApiServer);
    assert_eq!(plan.params.len(), 1);
    assert_eq!(plan.params[0].key, ParamKey::Auth);

    let plan = get_api_server_request(None);
    assert!(plan.params.is_empty());
}

#[test]
fn cloned_client_shares_endpoint_and_token() {
    let c = PCloudClient::new(String::from("https://h"), Some(String::from("tok")));
    let d = c.clone();
    assert_eq!(d.api_host, c.api_host);
    assert_eq!(d.session_token, c.session_token);
}
