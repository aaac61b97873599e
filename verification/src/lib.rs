pub mod envelope;
pub mod http;
pub mod invoke;
pub mod token;

pub use envelope::{
    api_error_message, envelope_ok, is_trans_error, trans_result, BaseResult, CallError,
};
pub use http::{opt_str_view, HttpMethod, HttpRequest, HttpRequestView};
pub use invoke::{
    authorization_view, base64_of, build_authorization, get_auto_open_api_step,
    get_open_api_request, open_api_request_view, AuthorizationType, AutoStep, GetOpenAPIOptions,
    OpenApiOptionsView,
};
pub use token::{
    apply_token_response, fresh_at, get_access_token, is_state_string, lemma_cache_hit_within_ttl,
    lemma_cache_key_sensitivity, lemma_cache_miss_after_ttl, spec_lookup,
    token_request_view, token_url, url_safe_char, AccessToken, CacheLine, CredKey,
    GetAccessTokenOptions, TokenCache, TokenStep, TOKEN_TTL_SECS,
};
