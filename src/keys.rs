//! The cache of the token issuer's public keys, with stale-on-error
//! fallback. Time is a monotonic clock reading in milliseconds, supplied by
//! the caller.

use vstd::prelude::*;

use crate::errors::GatewayError;

verus! {

/// One public verification key: its id, and its RSA modulus and exponent
/// (base64url text).
pub struct Jwk {
    pub kid: String,
    pub n: String,
    pub e: String,
}

/// Model of a key.
pub struct KeyView {
    pub kid: Seq<char>,
    pub n: Seq<char>,
    pub e: Seq<char>,
}

impl View for Jwk {
    type V = KeyView;

    open spec fn view(&self) -> KeyView {
        KeyView { kid: self.kid@, n: self.n@, e: self.e@ }
    }
}

pub open spec fn keys_view(v: Seq<Jwk>) -> Seq<KeyView> {
    v.map_values(|k: Jwk| k@)
}

impl Jwk {
    /// A key from its id, modulus and exponent.
    pub fn new(kid: String, n: String, e: String) -> (r: Jwk)
        ensures
            r@ == (KeyView { kid: kid@, n: n@, e: e@ }),
    {
        Jwk { kid, n, e }
    }

    /// A copy of the key.
    pub fn duplicate(&self) -> (r: Jwk)
        ensures
            r@ == self@,
    {
        Jwk { kid: self.kid.clone(), n: self.n.clone(), e: self.e.clone() }
    }
}

/// A copy of a key list.
pub fn copy_keys(keys: &Vec<Jwk>) -> (r: Vec<Jwk>)
    ensures
        keys_view(r@) == keys_view(keys@),
{
    let mut out: Vec<Jwk> = Vec::new();
    let mut i: usize = 0;
    while i < keys.len()
        invariant
            i <= keys@.len(),
            out@.len() == i,
            forall|j: int| 0 <= j < i ==> #[trigger] out@[j]@ == keys@[j]@,
        decreases keys@.len() - i,
    {
        out.push(keys[i].duplicate());
        i = i + 1;
    }
    assert(keys_view(out@) =~= keys_view(keys@));
    out
}

/// Model of the cache: nothing yet, or a key list with the time it was
/// fetched.
pub type CacheView = Option<(Seq<KeyView>, u64)>;

/// Time since `then`, zero for a reading that lies ahead of `then`.
pub open spec fn elapsed(then: u64, now: u64) -> int {
    if now >= then { now - then } else { 0 }
}

/// The cached keys when they are younger than `ttl`.
pub open spec fn fresh_spec(c: CacheView, now: u64, ttl: u64) -> Option<Seq<KeyView>> {
    match c {
        Some((k, t)) => if elapsed(t, now) < ttl { Some(k) } else { None },
        None => None,
    }
}

/// The outcome of a refresh, given the fetched keys (`None` for a failed
/// fetch): fetched keys replace the cache wholesale; otherwise the previous
/// keys are served stale, or, with none, validation fails.
pub open spec fn refresh_spec(c: CacheView, fetched: Option<Seq<KeyView>>, now: u64) -> (
    CacheView,
    Result<Seq<KeyView>, GatewayError>,
) {
    match fetched {
        Some(k) => (Some((k, now)), Ok(k)),
        None => match c {
            Some((k, _)) => (c, Ok(k)),
            None => (c, Err(GatewayError::Unauthorized)),
        },
    }
}

/// A refresh that fails while keys are cached leaves them cached, unchanged,
/// and serves them (so a non-empty cache stays non-empty); one that fails
/// with nothing cached fails validation.
pub proof fn lemma_failed_refresh_keeps_cache(c: CacheView, now: u64)
    ensures
        c matches Some((k, _)) ==> refresh_spec(c, None, now) == (c, Ok::<Seq<KeyView>, GatewayError>(k)),
        c is None ==> refresh_spec(c, None, now).1 == Err::<Seq<KeyView>, GatewayError>(
            GatewayError::Unauthorized,
        ),
{
}

/// The process-wide key-set cache.
pub struct KeyCache {
    entry: Option<(Vec<Jwk>, u64)>,
}

impl View for KeyCache {
    type V = CacheView;

    closed spec fn view(&self) -> CacheView {
        match self.entry {
            Some((k, t)) => Some((keys_view(k@), t)),
            None => None,
        }
    }
}

impl KeyCache {
    /// A cache that holds nothing yet.
    pub fn new() -> (r: KeyCache)
        ensures
            r@ is None,
    {
        KeyCache { entry: None }
    }

    /// A copy of the cached keys if they are younger than `ttl_ms`.
    pub fn fresh_keys(&self, now_ms: u64, ttl_ms: u64) -> (r: Option<Vec<Jwk>>)
        ensures
            match r {
                Some(k) => fresh_spec(self@, now_ms, ttl_ms) == Some(keys_view(k@)),
                None => fresh_spec(self@, now_ms, ttl_ms) is None,
            },
    {
        match &self.entry {
            Some((keys, fetched_at)) => {
                let age = if now_ms >= *fetched_at { now_ms - *fetched_at } else { 0 };
                if age < ttl_ms {
                    Some(copy_keys(keys))
                } else {
                    None
                }
            },
            None => None,
        }
    }

    /// Takes the result of fetching the key set at `now_ms` (`None` when the
    /// fetch failed) and returns the keys to validate with.
    pub fn refresh(&mut self, fetched: Option<Vec<Jwk>>, now_ms: u64) -> (r: Result<Vec<Jwk>, GatewayError>)
        ensures
            ({
                let (c, out) = refresh_spec(
                    old(self)@,
                    match fetched {
                        Some(k) => Some(keys_view(k@)),
                        None => None,
                    },
                    now_ms,
                );
                &&& final(self)@ == c
                &&& match (r, out) {
                    (Ok(k), Ok(kv)) => keys_view(k@) == kv,
                    (Err(e), Err(ev)) => e == ev,
                    _ => false,
                }
            }),
    {
        match fetched {
            Some(keys) => {
                let out = copy_keys(&keys);
                self.entry = Some((keys, now_ms));
                return Ok(out);
            },
            None => {},
        }
        match &self.entry {
            Some((keys, _)) => Ok(copy_keys(keys)),
            None => Err(GatewayError::Unauthorized),
        }
    }
}

} // verus!
