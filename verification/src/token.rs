//! Token acquisition: credential parameters, the access-token payload, a
//! TTL-bounded cache keyed by the full credential value, and the two halves
//! of the fetch flow (decide whether a network request is needed; absorb the
//! response and cache the token).

use vstd::prelude::*;
use vstd::string::StringExecFns;
use crate::envelope::{envelope_ok, is_trans_error, trans_result, BaseResult, CallError};
use crate::http::{HttpMethod, HttpRequest, HttpRequestView};

verus! {

/// Number of seconds a cached access token stays valid.
pub const TOKEN_TTL_SECS: u64 = 3600;

/// A cache entry inserted at `inserted_at` is still fresh at `now`.
pub open spec fn fresh_at(inserted_at: int, now: int) -> bool {
    inserted_at <= now && now - inserted_at < TOKEN_TTL_SECS as int
}

/// Mathematical model of a credential-parameter value: the cache key.
pub ghost struct CredKey {
    pub client_id: Seq<char>,
    pub client_secret: Seq<char>,
    pub scope: Seq<char>,
    pub user_agent: Seq<char>,
    pub auth_api: Seq<char>,
}

/// The client credentials one token is acquired for. Two values with equal
/// fields denote the same logical session and share one cache slot.
#[derive(Debug, Eq, Hash)]
pub struct GetAccessTokenOptions {
    pub client_id: String,
    pub client_secret: String,
    pub scope: String,
    pub user_agent: String,
    pub auth_api: String,
}

impl View for GetAccessTokenOptions {
    type V = CredKey;

    open spec fn view(&self) -> CredKey {
        CredKey {
            client_id: self.client_id@,
            client_secret: self.client_secret@,
            scope: self.scope@,
            user_agent: self.user_agent@,
            auth_api: self.auth_api@,
        }
    }
}

impl PartialEq for GetAccessTokenOptions {
    fn eq(&self, other: &Self) -> (r: bool) {
        self.client_id == other.client_id && self.client_secret == other.client_secret
            && self.scope == other.scope && self.user_agent == other.user_agent
            && self.auth_api == other.auth_api
    }
}

impl vstd::std_specs::cmp::PartialEqSpecImpl for GetAccessTokenOptions {
    open spec fn obeys_eq_spec() -> bool {
        true
    }

    open spec fn eq_spec(&self, other: &Self) -> bool {
        self@ == other@
    }
}

impl Clone for GetAccessTokenOptions {
    fn clone(&self) -> (r: Self)
        ensures
            r@ == self@,
    {
        GetAccessTokenOptions {
            client_id: self.client_id.clone(),
            client_secret: self.client_secret.clone(),
            scope: self.scope.clone(),
            user_agent: self.user_agent.clone(),
            auth_api: self.auth_api.clone(),
        }
    }
}

/// The payload of a successful token response.
pub struct AccessToken {
    pub access_token: String,
    pub expires_in: i32,
    pub scope: Vec<String>,
    pub created_at: i32,
    pub state: String,
}

/// Mathematical model of one cache slot: the token and when it was stored.
pub ghost struct CacheLine {
    pub token: Seq<char>,
    pub inserted_at: int,
}

struct TokenCacheEntry {
    key: GetAccessTokenOptions,
    token: String,
    inserted_at: u64,
}

spec fn line_of(e: TokenCacheEntry) -> CacheLine {
    CacheLine { token: e.token@, inserted_at: e.inserted_at as int }
}

spec fn uniq_keys(s: Seq<TokenCacheEntry>) -> bool {
    forall|i: int, j: int|
        #![trigger s[i].key@, s[j].key@]
        0 <= i < j < s.len() ==> s[i].key@ != s[j].key@
}

spec fn entries_map(s: Seq<TokenCacheEntry>) -> Map<CredKey, CacheLine>
    decreases s.len(),
{
    if s.len() == 0 {
        Map::empty()
    } else {
        entries_map(s.drop_last()).insert(s.last().key@, line_of(s.last()))
    }
}

/// The token cache: at most one live slot per distinct credential value,
/// modelled as a map from credential keys to cache lines.
pub struct TokenCache {
    entries: Vec<TokenCacheEntry>,
}

impl View for TokenCache {
    type V = Map<CredKey, CacheLine>;

    closed spec fn view(&self) -> Map<CredKey, CacheLine> {
        entries_map(self.entries@)
    }
}

/// What a cache lookup yields: the cached token when the key is present and
/// its slot is still fresh, and nothing otherwise.
pub open spec fn spec_lookup(m: Map<CredKey, CacheLine>, k: CredKey, now: int) -> Option<Seq<char>> {
    if m.contains_key(k) && fresh_at(m[k].inserted_at, now) {
        Some(m[k].token)
    } else {
        None
    }
}

proof fn lemma_map_of_absent(s: Seq<TokenCacheEntry>, k: CredKey)
    requires
        forall|i: int| 0 <= i < s.len() ==> (#[trigger] s[i].key@) != k,
    ensures
        !entries_map(s).contains_key(k),
    decreases s.len(),
{
    if s.len() > 0 {
        assert forall|i: int| 0 <= i < s.drop_last().len() implies (#[trigger] s.drop_last()[i].key@)
            != k by {
            assert(s.drop_last()[i] == s[i]);
        }
        lemma_map_of_absent(s.drop_last(), k);
    }
}

proof fn lemma_uniq_drop_last(s: Seq<TokenCacheEntry>)
    requires
        uniq_keys(s),
        s.len() > 0,
    ensures
        uniq_keys(s.drop_last()),
{
    assert forall|i: int, j: int|
        0 <= i < j < s.drop_last().len() implies (#[trigger] s.drop_last()[i].key@) != (
    #[trigger] s.drop_last()[j].key@) by {
        assert(s.drop_last()[i] == s[i]);
        assert(s.drop_last()[j] == s[j]);
    }
}

proof fn lemma_map_of_present(s: Seq<TokenCacheEntry>, i: int, k: CredKey)
    requires
        uniq_keys(s),
        0 <= i < s.len(),
        s[i].key@ == k,
    ensures
        entries_map(s).contains_key(k),
        entries_map(s)[k] == line_of(s[i]),
    decreases s.len(),
{
    if i == s.len() - 1 {
        assert(s.last() == s[i]);
    } else {
        lemma_uniq_drop_last(s);
        assert(s.drop_last()[i] == s[i]);
        lemma_map_of_present(s.drop_last(), i, k);
        assert(s.last().key@ != k);
    }
}

proof fn lemma_map_update(s: Seq<TokenCacheEntry>, i: int, e: TokenCacheEntry)
    requires
        uniq_keys(s),
        0 <= i < s.len(),
        e.key@ == s[i].key@,
    ensures
        entries_map(s.update(i, e)) == entries_map(s).insert(e.key@, line_of(e)),
        uniq_keys(s.update(i, e)),
    decreases s.len(),
{
    let k = e.key@;
    let s2 = s.update(i, e);
    assert forall|p: int, q: int|
        0 <= p < q < s2.len() implies (#[trigger] s2[p].key@) != (#[trigger] s2[q].key@) by {
        assert(s[p].key@ != s[q].key@);
    }
    if i == s.len() - 1 {
        assert(s2.drop_last() =~= s.drop_last());
        assert(s2.last() == e);
        assert(entries_map(s2) == entries_map(s.drop_last()).insert(k, line_of(e)));
        assert(entries_map(s).insert(k, line_of(e)) == entries_map(s.drop_last()).insert(
            k,
            line_of(s.last()),
        ).insert(k, line_of(e)));
        assert(entries_map(s.drop_last()).insert(k, line_of(s.last())).insert(k, line_of(e))
            =~= entries_map(s.drop_last()).insert(k, line_of(e)));
    } else {
        lemma_uniq_drop_last(s);
        assert(s2.drop_last() =~= s.drop_last().update(i, e));
        assert(s2.last() == s.last());
        assert(s.drop_last()[i] == s[i]);
        lemma_map_update(s.drop_last(), i, e);
        let lastk = s.last().key@;
        assert(lastk != k);
        assert(entries_map(s2) == entries_map(s.drop_last()).insert(k, line_of(e)).insert(
            lastk,
            line_of(s.last()),
        ));
        assert(entries_map(s.drop_last()).insert(k, line_of(e)).insert(lastk, line_of(s.last()))
            =~= entries_map(s.drop_last()).insert(lastk, line_of(s.last())).insert(k, line_of(e)));
    }
}

impl TokenCache {
    /// The cache holds at most one slot per distinct credential value.
    pub closed spec fn wf(&self) -> bool {
        uniq_keys(self.entries@)
    }

    /// An empty cache: every lookup misses.
    pub fn new() -> (r: TokenCache)
        ensures
            r.wf(),
            r@ == Map::<CredKey, CacheLine>::empty(),
    {
        TokenCache { entries: Vec::new() }
    }

    fn find_index(&self, params: &GetAccessTokenOptions) -> (r: Option<usize>)
        ensures
            (r matches Some(i) ==> i < self.entries@.len() && self.entries@[i as int].key@
                == params@),
            r is None ==> forall|i: int|
                0 <= i < self.entries@.len() ==> (#[trigger] self.entries@[i].key@) != params@,
    {
        let n = self.entries.len();
        let mut i: usize = 0;
        while i < n
            invariant
                n == self.entries@.len(),
                i <= n,
                forall|j: int| 0 <= j < i ==> (#[trigger] self.entries@[j].key@) != params@,
            decreases n - i,
        {
            if self.entries[i].key == *params {
                return Some(i);
            }
            i = i + 1;
        }
        None
    }

    /// Look the credential value up: the cached token comes back exactly when
    /// a slot for this value exists and is younger than the TTL; stale or
    /// absent slots yield nothing.
    pub fn lookup(&self, params: &GetAccessTokenOptions, now: u64) -> (r: Option<String>)
        requires
            self.wf(),
        ensures
            (spec_lookup(self@, params@, now as int) matches Some(t) ==> (r matches Some(s) && s@
                == t)),
            spec_lookup(self@, params@, now as int) is None ==> r is None,
    {
        match self.find_index(params) {
            Some(i) => {
                proof {
                    lemma_map_of_present(self.entries@, i as int, params@);
                }
                let e = &self.entries[i];
                if now >= e.inserted_at && now - e.inserted_at < TOKEN_TTL_SECS {
                    Some(e.token.clone())
                } else {
                    None
                }
            },
            None => {
                proof {
                    lemma_map_of_absent(self.entries@, params@);
                }
                None
            },
        }
    }

    /// Store (or overwrite) the slot for this credential value, with the TTL
    /// clock starting at `now`.
    pub fn insert(&mut self, params: &GetAccessTokenOptions, token: String, now: u64)
        requires
            old(self).wf(),
        ensures
            final(self).wf(),
            final(self)@ == old(self)@.insert(
                params@,
                (CacheLine { token: token@, inserted_at: now as int }),
            ),
    {
        let entry = TokenCacheEntry { key: params.clone(), token, inserted_at: now };
        match self.find_index(params) {
            Some(i) => {
                proof {
                    lemma_map_update(self.entries@, i as int, entry);
                }
                self.entries.set(i, entry);
            },
            None => {
                proof {
                    lemma_map_of_absent(self.entries@, params@);
                    let s2 = self.entries@.push(entry);
                    assert(s2.drop_last() =~= self.entries@);
                    assert(s2.last() == entry);
                    assert forall|p: int, q: int|
                        0 <= p < q < s2.len() implies (#[trigger] s2[p].key@) != (
                    #[trigger] s2[q].key@) by {
                        if q < s2.len() - 1 {
                            assert(s2[p] == self.entries@[p]);
                            assert(s2[q] == self.entries@[q]);
                        } else {
                            assert(s2[p] == self.entries@[p]);
                        }
                    }
                }
                self.entries.push(entry);
            },
        }
    }
}

/// A character that may stand in a URL without escaping: a letter, a digit,
/// `_` or `-`.
pub open spec fn url_safe_char(c: char) -> bool {
    ('a' as int) <= c as int <= ('z' as int) || ('A' as int) <= c as int <= ('Z' as int) || (
    '0' as int) <= c as int <= ('9' as int) || c == '_' || c == '-'
}

/// The shape every freshly generated `state` parameter has: 21 URL-safe
/// characters.
pub open spec fn is_state_string(s: Seq<char>) -> bool {
    s.len() == 21 && forall|i: int| 0 <= i < s.len() ==> url_safe_char(#[trigger] s[i])
}

/// Relies on nanoid::format with nanoid's URL-safe alphabet: it returns
/// exactly 21 characters, each drawn from `A-Za-z0-9_-`. The result is
/// random, so nothing relates two calls.
#[verifier::external_body]
fn fresh_state() -> (r: String)
    ensures
        is_state_string(r@),
{
    nanoid::format(nanoid::rngs::default, &nanoid::alphabet::SAFE, 21)
}

/// The path-and-query part of a token request: the fixed endpoint with
/// `client_id`, `client_secret`, `state` and `scope` as query parameters.
pub open spec fn token_url(p: CredKey, state: Seq<char>) -> Seq<char> {
    "/oauth/get_token?client_id="@ + p.client_id + "&client_secret="@ + p.client_secret + "&state="@
        + state + "&scope="@ + p.scope
}

/// The one request a token fetch issues: a GET of [`token_url`] against the
/// credential's `auth_api` base, with only the `user-agent` header set.
pub open spec fn token_request_view(p: CredKey, state: Seq<char>) -> HttpRequestView {
    HttpRequestView {
        method: HttpMethod::Get,
        base_url: p.auth_api,
        url: token_url(p, state),
        user_agent: p.user_agent,
        authorization: None,
        body: None,
        timeout_secs: None,
    }
}

/// What a token-fetch attempt decides: either a still-fresh cached token is
/// served as is, or the exact network request that must be issued next.
pub enum TokenStep {
    Ready { access_token: String },
    Fetch { request: HttpRequest, state: String },
}

/// Decide one token acquisition: serve the cached token when the cache has a
/// fresh slot for exactly this credential value, and otherwise describe the
/// fetch that must go out — a GET of `/oauth/get_token` carrying the
/// credentials, the scope and a fresh random `state`, with the caller's
/// `user-agent`. No other outcome exists: a hit never reaches the network.
pub fn get_access_token(cache: &TokenCache, params: &GetAccessTokenOptions, now: u64) -> (r:
    TokenStep)
    requires
        cache.wf(),
    ensures
        (spec_lookup(cache@, params@, now as int) matches Some(t) ==> (r matches TokenStep::Ready {
            access_token } && access_token@ == t)),
        spec_lookup(cache@, params@, now as int) is None ==> (r matches TokenStep::Fetch {
            request, state } && request@ == token_request_view(params@, state@)
            && is_state_string(state@)),
{
    match cache.lookup(params, now) {
        Some(access_token) => TokenStep::Ready { access_token },
        None => {
            let state = fresh_state();
            let mut url = "/oauth/get_token?client_id=".to_owned();
            url.append(params.client_id.as_str());
            url.append("&client_secret=");
            url.append(params.client_secret.as_str());
            url.append("&state=");
            url.append(state.as_str());
            url.append("&scope=");
            url.append(params.scope.as_str());
            let request = HttpRequest {
                method: HttpMethod::Get,
                base_url: params.auth_api.clone(),
                url,
                user_agent: params.user_agent.clone(),
                authorization: None,
                body: None,
                timeout_secs: None,
            };
            TokenStep::Fetch { request, state }
        },
    }
}

/// Absorb the envelope a token fetch brought back: on a payload-carrying
/// success the token string is cached for this credential value with the TTL
/// clock starting at `now` and returned; on any failure the cache is left
/// untouched and the translated error is passed through.
pub fn apply_token_response(
    cache: &mut TokenCache,
    params: &GetAccessTokenOptions,
    response: BaseResult<AccessToken>,
    now: u64,
) -> (r: Result<String, CallError>)
    requires
        old(cache).wf(),
    ensures
        final (cache).wf(),
        envelope_ok(response) ==> (r matches Ok(t) && t@ == response.data->0.access_token@ && final (
        cache)@ == old(cache)@.insert(
            params@,
            (CacheLine { token: response.data->0.access_token@, inserted_at: now as int }),
        )),
        !envelope_ok(response) ==> final (cache)@ == old(cache)@ && (r matches Err(e)
            && is_trans_error(response, e)),
{
    match trans_result(response) {
        Ok(data) => {
            let token = data.access_token;
            cache.insert(params, token.clone(), now);
            Ok(token)
        },
        Err(e) => Err(e),
    }
}

/// Law: a token cached at `t1` is still served at every later time `t2`
/// inside the TTL window, whatever the cache held before — so a second
/// token acquisition with the same credential value inside the window is a
/// hit, and [`get_access_token`] issues no network request for it.
pub proof fn lemma_cache_hit_within_ttl(
    m: Map<CredKey, CacheLine>,
    k: CredKey,
    token: Seq<char>,
    t1: int,
    t2: int,
)
    requires
        t1 <= t2 < t1 + TOKEN_TTL_SECS as int,
    ensures
        spec_lookup(m.insert(k, (CacheLine { token, inserted_at: t1 })), k, t2) == Some(token),
{
}

/// Law: once the TTL has elapsed, the slot cached at `t1` no longer serves
/// a lookup at `t2` — so [`get_access_token`] decides a fresh network
/// request even for identical credential parameters.
pub proof fn lemma_cache_miss_after_ttl(
    m: Map<CredKey, CacheLine>,
    k: CredKey,
    token: Seq<char>,
    t1: int,
    t2: int,
)
    requires
        t2 >= t1 + TOKEN_TTL_SECS as int,
    ensures
        spec_lookup(m.insert(k, (CacheLine { token, inserted_at: t1 })), k, t2) is None,
{
}

/// Law: caching a token under one credential value changes no lookup under
/// any other value — credential parameters that differ in any field miss a
/// prior entry exactly as they would an empty slot.
pub proof fn lemma_cache_key_sensitivity(
    m: Map<CredKey, CacheLine>,
    k1: CredKey,
    k2: CredKey,
    entry: CacheLine,
    now: int,
)
    requires
        k1 != k2,
    ensures
        spec_lookup(m.insert(k1, entry), k2, now) == spec_lookup(m, k2, now),
{
}

} // verus!
