//! The authenticated API invoker and the orchestrator: building the
//! `Authorization` header, describing an authenticated call, and composing
//! token acquisition with the call itself.

use vstd::prelude::*;
use vstd::string::StringExecFns;
use vstd::string::StringSliceAdditionalSpecFns;
use vstd::utf8::encode_utf8;
use crate::http::{opt_str_view, HttpMethod, HttpRequest, HttpRequestView};
use crate::token::{
    get_access_token, is_state_string, spec_lookup, token_request_view, GetAccessTokenOptions,
    TokenCache, TokenStep,
};

verus! {

/// The scheme of the `Authorization` header an authenticated call carries.
#[derive(Clone, Copy, PartialEq, Eq, Structural, Debug)]
pub enum AuthorizationType {
    Basic,
    Bearer,
}

/// What a call of base64 encoding returns on the given bytes: the standard
/// alphabet with `=` padding. Its value on given bytes is not stated here;
/// it stands for what the encoder itself computes.
pub uninterp spec fn base64_of(bytes: Seq<u8>) -> Seq<char>;

/// Relies on base64::encode: the standard alphabet with `=` padding, so the
/// output holds four characters for every three input bytes (the last group
/// padded), and depends on the input bytes alone.
#[verifier::external_body]
fn base64_string(s: &str) -> (r: String)
    ensures
        r@ == base64_of(s.spec_bytes()),
        r@.len() == 4 * ((s.spec_bytes().len() + 2) / 3),
{
    base64::encode(s)
}

/// The value of the `Authorization` header: for `Basic`, the word `Basic`
/// followed by the base64 encoding of `client_id:access_token`; for
/// `Bearer`, the word `Bearer` followed by the token itself.
pub open spec fn authorization_view(
    t: AuthorizationType,
    client_id: Seq<char>,
    access_token: Seq<char>,
) -> Seq<char> {
    match t {
        AuthorizationType::Basic => "Basic "@ + base64_of(
            encode_utf8(client_id + ":"@ + access_token),
        ),
        AuthorizationType::Bearer => "Bearer "@ + access_token,
    }
}

/// Build the `Authorization` header value for one authenticated call.
pub fn build_authorization(
    authorization_type: AuthorizationType,
    client_id: &String,
    access_token: &String,
) -> (r: String)
    ensures
        r@ == authorization_view(authorization_type, client_id@, access_token@),
{
    match authorization_type {
        AuthorizationType::Basic => {
            let mut cred = client_id.clone();
            cred.append(":");
            cred.append(access_token.as_str());
            let encoded = base64_string(cred.as_str());
            let mut out = "Basic ".to_owned();
            out.append(encoded.as_str());
            out
        },
        AuthorizationType::Bearer => {
            let mut out = "Bearer ".to_owned();
            out.append(access_token.as_str());
            out
        },
    }
}

/// Mathematical model of one authenticated-call description.
pub ghost struct OpenApiOptionsView {
    pub client_id: Seq<char>,
    pub user_agent: Seq<char>,
    pub url: Seq<char>,
    pub method: HttpMethod,
    pub authorization_type: AuthorizationType,
    pub body: Option<Seq<char>>,
    pub auth_api: Seq<char>,
    pub timeout: Option<u64>,
}

/// Everything one authenticated call needs besides the token: where to call
/// (`url` against the `auth_api` base), how (`method`, optional `body` and
/// `timeout`), and how to authenticate (`client_id`, `authorization_type`,
/// `user_agent`).
pub struct GetOpenAPIOptions {
    pub client_id: String,
    pub user_agent: String,
    pub url: String,
    pub method: HttpMethod,
    pub authorization_type: AuthorizationType,
    pub body: Option<String>,
    pub auth_api: String,
    pub timeout: Option<u64>,
}

impl View for GetOpenAPIOptions {
    type V = OpenApiOptionsView;

    open spec fn view(&self) -> OpenApiOptionsView {
        OpenApiOptionsView {
            client_id: self.client_id@,
            user_agent: self.user_agent@,
            url: self.url@,
            method: self.method,
            authorization_type: self.authorization_type,
            body: opt_str_view(self.body),
            auth_api: self.auth_api@,
            timeout: self.timeout,
        }
    }
}

impl Clone for GetOpenAPIOptions {
    fn clone(&self) -> (r: Self)
        ensures
            r@ == self@,
    {
        GetOpenAPIOptions {
            client_id: self.client_id.clone(),
            user_agent: self.user_agent.clone(),
            url: self.url.clone(),
            method: self.method,
            authorization_type: self.authorization_type,
            body: match &self.body {
                Some(b) => Some(b.clone()),
                None => None,
            },
            auth_api: self.auth_api.clone(),
            timeout: self.timeout,
        }
    }
}

/// The request one authenticated call issues: the caller's method, URL and
/// body against the `auth_api` base, with the caller's `user-agent` and the
/// `Authorization` header built from the token.
pub open spec fn open_api_request_view(
    access_token: Seq<char>,
    o: OpenApiOptionsView,
) -> HttpRequestView {
    HttpRequestView {
        method: o.method,
        base_url: o.auth_api,
        url: o.url,
        user_agent: o.user_agent,
        authorization: Some(authorization_view(o.authorization_type, o.client_id, access_token)),
        body: o.body,
        timeout_secs: o.timeout,
    }
}

/// Describe the authenticated call for a token already in hand.
pub fn get_open_api_request(access_token: &String, options: &GetOpenAPIOptions) -> (r: HttpRequest)
    ensures
        r@ == open_api_request_view(access_token@, options@),
{
    let authorization = build_authorization(
        options.authorization_type,
        &options.client_id,
        access_token,
    );
    HttpRequest {
        method: options.method,
        base_url: options.auth_api.clone(),
        url: options.url.clone(),
        user_agent: options.user_agent.clone(),
        authorization: Some(authorization),
        body: match &options.body {
            Some(b) => Some(b.clone()),
            None => None,
        },
        timeout_secs: options.timeout,
    }
}

/// What one orchestrated invocation decides first: with a fresh cached token
/// the authenticated call itself goes out; without one, the token fetch must
/// go out before any authenticated request exists.
pub enum AutoStep {
    CallApi { request: HttpRequest },
    FetchToken { request: HttpRequest, state: String },
}

/// Decide the first request of a full credential-to-payload round trip:
/// token acquisition strictly precedes the authenticated call, so a cache
/// miss yields the token fetch and nothing else, while a fresh cached token
/// yields the authenticated call directly, with its `Authorization` header
/// built from the cached token.
pub fn get_auto_open_api_step(
    cache: &TokenCache,
    cred: &GetAccessTokenOptions,
    options: &GetOpenAPIOptions,
    now: u64,
) -> (r: AutoStep)
    requires
        cache.wf(),
    ensures
        (spec_lookup(cache@, cred@, now as int) matches Some(t) ==> (r matches AutoStep::CallApi {
            request } && request@ == open_api_request_view(t, options@))),
        spec_lookup(cache@, cred@, now as int) is None ==> (r matches AutoStep::FetchToken {
            request, state } && request@ == token_request_view(cred@, state@) && is_state_string(
            state@,
        )),
{
    match get_access_token(cache, cred, now) {
        TokenStep::Ready { access_token } => AutoStep::CallApi {
            request: get_open_api_request(&access_token, options),
        },
        TokenStep::Fetch { request, state } => AutoStep::FetchToken { request, state },
    }
}

} // verus!
