use spacex_sdk::{
    apply_token_response, get_auto_open_api_step, get_open_api_request, trans_result,
    AccessToken, AuthorizationType, AutoStep, BaseResult, CallError, GetAccessTokenOptions,
    GetOpenAPIOptions, HttpMethod, TokenCache,
};
use spacex_sdk::build_authorization;

fn cred() -> GetAccessTokenOptions {
    GetAccessTokenOptions {
        client_id: "abc".to_string(),
        client_secret: "sec".to_string(),
        scope: "wecom".to_string(),
        user_agent: "agent/1.0".to_string(),
        auth_api: "https://open.example.com/sso/v2".to_string(),
    }
}

fn call_options() -> GetOpenAPIOptions {
    GetOpenAPIOptions {
        client_id: "abc".to_string(),
        user_agent: "agent/1.0".to_string(),
        url: "account/get_userinfo_by_openid?openid=xx".to_string(),
        method: HttpMethod::Get,
        authorization_type: AuthorizationType::Basic,
        body: None,
        auth_api: "https://open.example.com/sso/v2".to_string(),
        timeout: None,
    }
}

fn token_envelope(token: &str) -> BaseResult<AccessToken> {
    BaseResult {
        code: "0".to_string(),
        request_id: "req-2".to_string(),
        data: Some(AccessToken {
            access_token: token.to_string(),
            expires_in: 7200,
            scope: vec!["wecom".to_string()],
            created_at: 1000,
            state: "st".to_string(),
        }),
        success: true,
        message: None,
    }
}

#[test]
fn basic_authorization_header() {
    let h = build_authorization(
        AuthorizationType::Basic,
        &"abc".to_string(),
        &"tok".to_string(),
    );
    // base64("abc:tok") == "YWJjOnRvaw=="
    assert_eq!(h, "Basic YWJjOnRvaw==");
}

#[test]
fn basic_authorization_header_empty_parts() {
    let h = build_authorization(AuthorizationType::Basic, &String::new(), &String::new());
    // base64(":") == "Og=="
    assert_eq!(h, "Basic Og==");
}

#[test]
fn bearer_authorization_header() {
    let h = build_authorization(
        AuthorizationType::Bearer,
        &"abc".to_string(),
        &"tok".to_string(),
    );
    assert_eq!(h, "Bearer tok");
}

#[test]
fn open_api_request_carries_both_headers() {
    let mut options = call_options();
    options.body = Some("{\"q\":1}".to_string());
    options.timeout = Some(30);
    let request = get_open_api_request(&"tok".to_string(), &options);
    assert_eq!(request.method, HttpMethod::Get);
    assert_eq!(request.base_url, "https://open.example.com/sso/v2");
    assert_eq!(request.url, "account/get_userinfo_by_openid?openid=xx");
    assert_eq!(request.user_agent, "agent/1.0");
    assert_eq!(request.authorization.as_deref(), Some("Basic YWJjOnRvaw=="));
    assert_eq!(request.body.as_deref(), Some("{\"q\":1}"));
    assert_eq!(request.timeout_secs, Some(30));
}

#[test]
fn open_api_request_bearer_scheme() {
    let mut options = call_options();
    options.authorization_type = AuthorizationType::Bearer;
    let request = get_open_api_request(&"tok".to_string(), &options);
    assert_eq!(request.authorization.as_deref(), Some("Bearer tok"));
}

#[test]
fn auto_call_round_trip() {
    let mut cache = TokenCache::new();
    let mut requests_issued = 0;

    // First step: nothing cached, so the token fetch must go out first.
    let step = get_auto_open_api_step(&cache, &cred(), &call_options(), 1000);
    match step {
        AutoStep::FetchToken { request, state } => {
            assert_eq!(request.authorization, None);
            assert_eq!(state.len(), 21);
        }
        AutoStep::CallApi { .. } => panic!("no token is cached yet"),
    }
    requests_issued += 1;

    // The mocked transport answers with a valid token envelope.
    let token = match apply_token_response(&mut cache, &cred(), token_envelope("T1"), 1000) {
        Ok(t) => t,
        Err(_) => panic!("a valid token envelope must yield the token"),
    };
    assert_eq!(token, "T1");

    // Second step: the cached token turns into the authenticated call.
    let step = get_auto_open_api_step(&cache, &cred(), &call_options(), 1200);
    let api_request = match step {
        AutoStep::CallApi { request } => request,
        AutoStep::FetchToken { .. } => panic!("the token is cached; no second fetch"),
    };
    requests_issued += 1;
    // base64("abc:T1") == "YWJjOlQx"
    assert_eq!(api_request.authorization.as_deref(), Some("Basic YWJjOlQx"));
    assert_eq!(api_request.url, "account/get_userinfo_by_openid?openid=xx");

    // The mocked transport answers the call with a payload envelope; the
    // payload comes back unchanged.
    let payload_envelope: BaseResult<String> = BaseResult {
        code: "0".to_string(),
        request_id: "req-3".to_string(),
        data: Some("payload-7".to_string()),
        success: true,
        message: None,
    };
    match trans_result(payload_envelope) {
        Ok(payload) => assert_eq!(payload, "payload-7"),
        Err(_) => panic!("a successful envelope must yield its payload"),
    }
    assert_eq!(requests_issued, 2);
}

#[test]
fn auto_call_short_circuits_on_token_failure() {
    let mut cache = TokenCache::new();

    let step = get_auto_open_api_step(&cache, &cred(), &call_options(), 1000);
    assert!(matches!(step, AutoStep::FetchToken { .. }));

    // The mocked token fetch fails: the flow stops before any authenticated
    // request exists.
    let failure: BaseResult<AccessToken> = BaseResult {
        code: "E1".to_string(),
        request_id: "req-4".to_string(),
        data: None,
        success: false,
        message: Some("bad creds".to_string()),
    };
    match apply_token_response(&mut cache, &cred(), failure, 1000) {
        Err(CallError::Api { message }) => assert_eq!(message, "E1: bad creds"),
        _ => panic!("the failed fetch must surface the upstream error"),
    }

    // Still no token: a retry would have to fetch again, and no
    // authenticated call was ever described.
    let step = get_auto_open_api_step(&cache, &cred(), &call_options(), 1001);
    assert!(matches!(step, AutoStep::FetchToken { .. }));
}
