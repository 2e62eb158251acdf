//! The cache-aside fetch that every widget endpoint shares, generalized over
//! the provider: compute a cache key from the logical query, serve a fresh
//! cached value without a live call, otherwise resolve the live outcome,
//! refuse to cache failures, and populate the store on success for the
//! provider's time-to-live.
//!
//! The per-provider pieces — query shapes, payload shapes, cache-key tags,
//! endpoint URLs and time-to-live constants — live here too; the actual HTTP
//! and store traffic stays outside the library.

use vstd::prelude::*;
use vstd::string::*;

use crate::cache::CacheLookup;
use crate::cache::MemoryStore;
use crate::error::AppError;

verus! {

/// Comma-separated ticker symbols, e.g. "BTC,ETH,SOL".
#[derive(Debug, Clone, PartialEq, Eq)]
pub struct CryptoQuery {
    pub symbols: String,
}

/// The account whose public activity is fetched.
#[derive(Debug, Clone, PartialEq, Eq)]
pub struct GitHubQuery {
    pub username: String,
}

/// One public activity event.
#[derive(Debug, Clone, PartialEq, Eq)]
pub struct GitHubEvent {
    pub id: String,
    pub event_type: String,
    pub repo: GitHubRepo,
    pub created_at: String,
}

/// The repository an event belongs to.
#[derive(Debug, Clone, PartialEq, Eq)]
pub struct GitHubRepo {
    pub name: String,
}

/// The topic news is searched for.
#[derive(Debug, Clone, PartialEq, Eq)]
pub struct NewsQuery {
    pub topic: String,
}

/// One news article; absent fields degrade to `None` rather than failing the
/// whole request.
#[derive(Debug, Clone, PartialEq, Eq)]
pub struct NewsArticle {
    pub title: String,
    pub description: Option<String>,
    pub url: String,
    pub source: String,
    pub published_at: String,
    pub url_to_image: Option<String>,
}

/// Comma-separated URLs whose uptime is probed.
#[derive(Debug, Clone, PartialEq, Eq)]
pub struct StatusQuery {
    pub urls: String,
}

/// The probe result for one URL.
#[derive(Debug, Clone, PartialEq, Eq)]
pub struct StatusCheck {
    pub url: String,
    pub status: String,
    pub status_code: Option<u16>,
    pub response_time_ms: Option<u64>,
}

/// The city weather is fetched for.
#[derive(Debug, Clone, PartialEq, Eq)]
pub struct WeatherQuery {
    pub city: String,
}

/// The symbols fetched when the query names none.
pub fn default_symbols() -> (r: String)
    ensures
        r@ == "BTC,ETH"@,
{
    String::from_str("BTC,ETH")
}

/// The topic searched when the query names none.
pub fn default_topic() -> (r: String)
    ensures
        r@ == "technology"@,
{
    String::from_str("technology")
}

/// Each provider fixes its time-to-live by how volatile its data is.
pub const CRYPTO_TTL_SECONDS: u64 = 300;

pub const GITHUB_TTL_SECONDS: u64 = 300;

pub const NEWS_TTL_SECONDS: u64 = 900;

pub const STATUS_TTL_SECONDS: u64 = 120;

pub const WEATHER_TTL_SECONDS: u64 = 600;

/// The cache key of a logical query: the provider tag, a colon, and the
/// query itself. Distinct query shapes get distinct keys; the key does not
/// name a user, so cached widget data is shared across users.
pub fn cache_key(tag: &str, query: &str) -> (r: String)
    ensures
        r@ == tag@ + ":"@ + query@,
{
    let mut s = String::from_str(tag);
    s.append(":");
    s.append(query);
    s
}

/// Distinct queries under one provider tag get distinct cache keys: the
/// cache partitions per logical query shape, not per user.
pub proof fn lemma_cache_key_partitions(tag: Seq<char>, q1: Seq<char>, q2: Seq<char>)
    requires
        q1 != q2,
    ensures
        tag + ":"@ + q1 != tag + ":"@ + q2,
{
    let p = tag + ":"@;
    let k1 = p + q1;
    let k2 = p + q2;
    if q1.len() == q2.len() {
        assert(exists|i: int| 0 <= i < q1.len() && q1[i] != q2[i]) by {
            if forall|i: int| 0 <= i < q1.len() ==> q1[i] == q2[i] {
                assert(q1 =~= q2);
            }
        }
        let i = choose|i: int| 0 <= i < q1.len() && q1[i] != q2[i];
        assert(k1[p.len() + i] == q1[i]);
        assert(k2[p.len() + i] == q2[i]);
    } else {
        assert(k1.len() != k2.len());
    }
}

/// What `str::to_lowercase` returns: a function of the characters alone.
pub uninterp spec fn lower_of(s: Seq<char>) -> Seq<char>;

/// Relies on `str::to_lowercase`: Unicode lowercasing of the text, the same
/// on every machine.
#[verifier::external_body]
fn to_lowercase_raw(s: &str) -> (r: String)
    ensures
        r@ == lower_of(s@),
{
    s.to_lowercase()
}

/// The price endpoint for the queried symbols, lowercased into provider ids.
pub fn crypto_url(symbols: &str) -> (r: String)
    ensures
        r@ == "https://api.coingecko.com/api/v3/simple/price?ids="@ + lower_of(symbols@)
            + "&vs_currencies=usd&include_24hr_change=true"@,
{
    let mut s = String::from_str("https://api.coingecko.com/api/v3/simple/price?ids=");
    let low = to_lowercase_raw(symbols);
    s.append(low.as_str());
    s.append("&vs_currencies=usd&include_24hr_change=true");
    s
}

/// The public-events endpoint for a username.
pub fn github_url(username: &str) -> (r: String)
    ensures
        r@ == "https://api.github.com/users/"@ + username@ + "/events/public"@,
{
    let mut s = String::from_str("https://api.github.com/users/");
    s.append(username);
    s.append("/events/public");
    s
}

/// The article-search endpoint for a topic, authenticated by the API key.
pub fn news_url(topic: &str, api_key: &str) -> (r: String)
    ensures
        r@ == "https://newsapi.org/v2/everything?q="@ + topic@ + "&apiKey="@ + api_key@
            + "&pageSize=10&sortBy=publishedAt"@,
{
    let mut s = String::from_str("https://newsapi.org/v2/everything?q=");
    s.append(topic);
    s.append("&apiKey=");
    s.append(api_key);
    s.append("&pageSize=10&sortBy=publishedAt");
    s
}

/// The current-weather endpoint for a city, authenticated by the API key.
pub fn weather_url(city: &str, api_key: &str) -> (r: String)
    ensures
        r@ == "https://api.openweathermap.org/data/2.5/weather?q="@ + city@ + "&appid="@
            + api_key@ + "&units=metric"@,
{
    let mut s = String::from_str("https://api.openweathermap.org/data/2.5/weather?q=");
    s.append(city);
    s.append("&appid=");
    s.append(api_key);
    s.append("&units=metric");
    s
}

/// The probe targets named by a comma-separated list: each segment trimmed
/// of whitespace, with empty segments dropped.
pub open spec fn spec_targets_of(segs: Seq<Seq<char>>) -> Seq<Seq<char>>
    decreases segs.len(),
{
    if segs.len() == 0 {
        Seq::empty()
    } else {
        let prev = spec_targets_of(segs.drop_last());
        let t = crate::text::spec_trim(segs.last());
        if t.len() == 0 {
            prev
        } else {
            prev.push(t)
        }
    }
}

/// The probe targets of a raw query string.
pub open spec fn spec_targets(s: Seq<char>) -> Seq<Seq<char>> {
    spec_targets_of(crate::text::spec_segments(s))
}

/// Parse the uptime query: split the comma-separated list, trim each
/// segment, and drop the empty ones.
pub fn status_targets(urls: &str) -> (r: Vec<String>)
    ensures
        r@.len() == spec_targets(urls@).len(),
        forall|i: int| 0 <= i < r@.len() ==> r@[i]@ == spec_targets(urls@)[i],
{
    let parts = crate::text::split_commas(urls);
    let ghost segs = crate::text::spec_segments(urls@);
    let mut out: Vec<String> = Vec::new();
    let mut i: usize = 0;
    proof {
        assert(segs.take(0) =~= Seq::<Seq<char>>::empty());
    }
    while i < parts.len()
        invariant
            0 <= i <= parts.len(),
            parts@.len() == segs.len(),
            forall|j: int| 0 <= j < parts@.len() ==> parts@[j]@ == segs[j],
            out@.len() == spec_targets_of(segs.take(i as int)).len(),
            forall|j: int|
                0 <= j < out@.len() ==> out@[j]@ == spec_targets_of(segs.take(i as int))[j],
        decreases parts.len() - i,
    {
        proof {
            assert(segs.take(i + 1).drop_last() == segs.take(i as int));
            assert(segs.take(i + 1).last() == segs[i as int]);
        }
        let t = crate::text::trim_str(parts[i].as_str());
        if !t.is_empty() {
            out.push(String::from_str(t));
        }
        i += 1;
    }
    proof {
        assert(segs.take(parts@.len() as int) == segs);
    }
    out
}

/// A provider that needs a configured API key fails with an internal error
/// before any cache or network traffic when the key is absent.
pub fn require_api_key<'a>(key: &'a Option<String>, missing: &str) -> (r: Result<
    &'a String,
    AppError,
>)
    ensures
        key matches Some(k) ==> (r matches Ok(v) && v@ == k@),
        key is None ==> (r matches Err(e) && e matches AppError::Internal(m) && m@ == missing@),
{
    match key {
        Some(k) => Ok(k),
        None => Err(AppError::Internal(String::from_str(missing))),
    }
}

/// What the live fetch came back with: an HTTP response (its status, the
/// mapped payload already serialized, and a short description for logging),
/// or no response at all.
#[derive(Debug, Clone, PartialEq, Eq)]
pub enum FetchOutcome {
    Response { status: u16, body: String, detail: String },
    Transport { detail: String },
}

/// The successful status range.
pub open spec fn is_success_status(status: u16) -> bool {
    200 <= status < 300
}

/// How a live outcome resolves: the payload of a successful response, or the
/// upstream failure's description.
pub open spec fn spec_resolve(outcome: FetchOutcome) -> Result<Seq<char>, Seq<char>> {
    match outcome {
        FetchOutcome::Response { status, body, detail } => if is_success_status(status) {
            Ok(body@)
        } else {
            Err(detail@)
        },
        FetchOutcome::Transport { detail } => Err(detail@),
    }
}

/// Resolve a live outcome: a successful response is served as-is; a non-2xx
/// response or a transport failure fails the whole request as an upstream
/// error, and is never cached.
pub fn resolve_fetch(outcome: &FetchOutcome) -> (r: Result<String, AppError>)
    ensures
        spec_resolve(*outcome) matches Ok(b) ==> (r matches Ok(rb) && rb@ == b),
        spec_resolve(*outcome) matches Err(d) ==> (r matches Err(e) && e matches
            AppError::ExternalApi(m) && m@ == d),
{
    match outcome {
        FetchOutcome::Response { status, body, detail } => {
            if 200 <= *status && *status < 300 {
                Ok(body.clone())
            } else {
                Err(AppError::ExternalApi(detail.clone()))
            }
        },
        FetchOutcome::Transport { detail } => Err(AppError::ExternalApi(detail.clone())),
    }
}

/// What one cache-aside request answers, as a function of the lookup outcome
/// and of the live outcome it consults on anything but a hit, together with
/// whether the live endpoint was consulted at all.
pub open spec fn spec_serve(lookup: CacheLookup, live: FetchOutcome) -> (Result<
    Seq<char>,
    Seq<char>,
>, bool) {
    match lookup {
        CacheLookup::Hit(v) => (Ok(v@), false),
        CacheLookup::Miss => (spec_resolve(live), true),
        CacheLookup::Unavailable => (spec_resolve(live), true),
    }
}

/// Fail-open: an unreachable or corrupt store is served exactly like a plain
/// miss — the request is answered from the live fetch, and the only error it
/// can end in is the upstream one, never one attributable to the cache.
pub proof fn lemma_fail_open(live: FetchOutcome)
    ensures
        spec_serve(CacheLookup::Unavailable, live) == spec_serve(CacheLookup::Miss, live),
        spec_serve(CacheLookup::Unavailable, live).0 == spec_resolve(live),
{
}

/// Answer one request from a lookup outcome: a hit is served with no live
/// call; a miss — and, fail-open, an unavailable store — is answered by
/// resolving the live outcome. The flag says whether the live endpoint was
/// consulted.
pub fn serve_after_lookup(lookup: &CacheLookup, live: &FetchOutcome) -> (r: (Result<
    String,
    AppError,
>, bool))
    ensures
        r.1 == spec_serve(*lookup, *live).1,
        spec_serve(*lookup, *live).0 matches Ok(b) ==> (r.0 matches Ok(rb) && rb@ == b),
        spec_serve(*lookup, *live).0 matches Err(d) ==> (r.0 matches Err(e) && e matches
            AppError::ExternalApi(m) && m@ == d),
{
    match lookup {
        CacheLookup::Hit(v) => (Ok(v.clone()), false),
        CacheLookup::Miss => (resolve_fetch(live), true),
        CacheLookup::Unavailable => (resolve_fetch(live), true),
    }
}

/// One full cache-aside request against a store: serve a still-fresh entry
/// without consulting the live endpoint; otherwise resolve the live outcome,
/// populate the store for `ttl` seconds on success, and leave the store
/// untouched on failure. The flag says whether the live endpoint was
/// consulted.
pub fn serve_via_store(
    store: &mut MemoryStore,
    key: &str,
    ttl: u64,
    now: u64,
    live: &FetchOutcome,
) -> (r: (Result<String, AppError>, bool))
    requires
        1 <= ttl,
        now + ttl <= u64::MAX,
    ensures
        old(store).value_at(key@, now) matches Some(v) ==> (r.1 == false && *final(store) == *old(
            store,
        ) && (r.0 matches Ok(b) && b@ == v)),
        old(store).value_at(key@, now) is None ==> {
            &&& r.1 == true
            &&& spec_resolve(*live) matches Ok(b) ==> ((r.0 matches Ok(rb) && rb@ == b) && (
            forall|t: u64|
                now <= t < now + ttl ==> final(store).value_at(key@, t) == Some(b)) && (forall|
                k: Seq<char>,
            |
                k != key@ ==> final(store).resolves(k) == old(store).resolves(k)))
            &&& spec_resolve(*live) matches Err(d) ==> (*final(store) == *old(store) && (
            r.0 matches Err(e) && e matches AppError::ExternalApi(m) && m@ == d))
        },
{
    match store.get(key, now) {
        Some(v) => (Ok(v), false),
        None => {
            match resolve_fetch(live) {
                Ok(body) => {
                    store.set(key, body.as_str(), ttl, now);
                    (Ok(body), true)
                },
                Err(e) => (Err(e), true),
            }
        },
    }
}

/// Cache-aside idempotence: starting from a store with nothing fresh under
/// `key`, two identical queries — the second within the first one's
/// time-to-live — consult the live endpoint exactly once, and the second is
/// answered from the store with the same body the first returned.
pub fn serve_twice(
    store: &mut MemoryStore,
    key: &str,
    ttl: u64,
    now1: u64,
    now2: u64,
    live: &FetchOutcome,
) -> (r: ((Result<String, AppError>, bool), (Result<String, AppError>, bool)))
    requires
        old(store).value_at(key@, now1) is None,
        1 <= ttl,
        now1 <= now2 < now1 + ttl,
        now1 + ttl <= u64::MAX,
        now2 + ttl <= u64::MAX,
        spec_resolve(*live) is Ok,
    ensures
        r.0.1 == true,
        r.1.1 == false,
        r.0.0 matches Ok(b1) && r.1.0 matches Ok(b2) && b1@ == b2@,
{
    let first = serve_via_store(store, key, ttl, now1, live);
    let second = serve_via_store(store, key, ttl, now2, live);
    (first, second)
}

} // verus!
