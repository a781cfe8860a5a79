//! Verifying a caller's identity token against the issuer's key set and
//! turning it into an [`User`].

use vstd::prelude::*;

use crate::errors::GatewayError;
use crate::keys::{fresh_spec, keys_view, refresh_spec, CacheView, Jwk, KeyCache, KeyView};
use crate::username::{email_to_username, lowercase, lowercase_of, username_of};

verus! {

/// The identity of an authenticated caller.
pub struct User {
    pub username: String,
    pub email: String,
    pub is_admin: bool,
}

#[verifier::external_type_specification]
#[verifier::external_body]
pub struct ExDecodingKey(jsonwebtoken::DecodingKey);

/// The key id in a token's header, read without verifying anything.
pub uninterp spec fn header_key_id(token: Seq<char>) -> Option<Seq<char>>;

/// Relies on `jsonwebtoken::decode_header`: parses the token's header,
/// whose `kid` field is returned; `None` for a malformed token or one
/// without a key id.
#[verifier::external_body]
fn token_key_id(token: &str) -> (r: Option<String>)
    ensures
        r matches Some(k) ==> header_key_id(token@) == Some(k@),
        r is None ==> header_key_id(token@) is None,
{
    match jsonwebtoken::decode_header(token) {
        Ok(h) => h.kid,
        Err(_) => None,
    }
}

/// Relies on `jsonwebtoken::DecodingKey::from_rsa_components`: an RSA
/// public key from its base64url modulus and exponent, `None` when they do
/// not decode.
#[verifier::external_body]
fn rsa_key(n: &str, e: &str) -> (r: Option<jsonwebtoken::DecodingKey>) {
    jsonwebtoken::DecodingKey::from_rsa_components(n, e).ok()
}

/// The `email` claim of a token's payload, read without verifying anything.
pub uninterp spec fn email_claim(token: Seq<char>) -> Option<Seq<char>>;

/// Relies on `jsonwebtoken::decode` with an RS256 `Validation` bound to
/// `aud` and `issuer`: checks the signature, expiry (against the clock),
/// audience and issuer, and returns the `email` claim of the token's
/// payload, or `None` when any check fails or the claim is not a string.
#[verifier::external_body]
fn verified_email(token: &str, key: &jsonwebtoken::DecodingKey, aud: &str, issuer: &str) -> (r: Option<String>)
    ensures
        r matches Some(e) ==> email_claim(token@) == Some(e@),
{
    let mut validation = jsonwebtoken::Validation::new(jsonwebtoken::Algorithm::RS256);
    validation.set_audience(&[aud]);
    validation.set_issuer(&[issuer]);
    match jsonwebtoken::decode::<serde_json::Value>(token, key, &validation) {
        Ok(data) => data.claims.get("email").and_then(|v| v.as_str()).map(|s| s.to_string()),
        Err(_) => None,
    }
}

/// Some key of `keys` has id `kid`.
pub open spec fn has_key(keys: Seq<KeyView>, kid: Seq<char>) -> bool {
    exists|i: int| 0 <= i < keys.len() && keys[i].kid == kid
}

/// Finds the key with id `kid`.
pub fn find_key(keys: &Vec<Jwk>, kid: &String) -> (r: Option<usize>)
    ensures
        r matches Some(i) ==> i < keys@.len() && keys@[i as int].kid@ == kid@,
        r is None ==> !has_key(keys_view(keys@), kid@),
{
    let mut i: usize = 0;
    while i < keys.len()
        invariant
            i <= keys@.len(),
            forall|j: int| 0 <= j < i ==> keys@[j].kid@ != kid@,
        decreases keys@.len() - i,
    {
        if keys[i].kid == *kid {
            return Some(i);
        }
        i = i + 1;
    }
    assert forall|j: int| 0 <= j < keys@.len() implies keys_view(keys@)[j].kid != kid@ by {
        assert(keys_view(keys@)[j] == keys@[j]@);
    }
    None
}

/// The identity of a caller with a verified `email`: its derived username,
/// and whether that username is on the admin list.
pub open spec fn identity_ok(u: User, email: Seq<char>, admins: Seq<Seq<char>>) -> bool {
    &&& u.email@ == email
    &&& u.username@ == username_of(email)
    &&& u.is_admin == admins.contains(username_of(email))
}

/// Validates identity tokens issued for an audience by a team's issuer,
/// with a cache of the issuer's keys and a list of admin usernames.
pub struct Validator {
    aud: String,
    issuer: String,
    jwks_url: String,
    cache_ttl_ms: u64,
    admins: Vec<String>,
    cache: KeyCache,
}

impl Validator {
    /// The admin list, lower-cased.
    pub closed spec fn admin_list(&self) -> Seq<Seq<char>> {
        self.admins@.map_values(|a: String| a@)
    }

    pub closed spec fn audience(&self) -> Seq<char> {
        self.aud@
    }

    pub closed spec fn issuer_of(&self) -> Seq<char> {
        self.issuer@
    }

    pub closed spec fn jwks_url_of(&self) -> Seq<char> {
        self.jwks_url@
    }

    pub closed spec fn ttl(&self) -> u64 {
        self.cache_ttl_ms
    }

    pub closed spec fn cache_of(&self) -> CacheView {
        self.cache@
    }

    /// A validator for tokens of audience `aud` issued by `team_domain`; the
    /// admin names are compared without regard to case.
    pub fn new(team_domain: &str, aud: &str, cache_ttl_ms: u64, admin_users: &Vec<String>) -> (r: Validator)
        ensures
            r.audience() == aud@,
            r.issuer_of() == "https://"@ + team_domain@,
            r.jwks_url_of() == "https://"@ + team_domain@ + "/cdn-cgi/access/certs"@,
            r.ttl() == cache_ttl_ms,
            r.admin_list() == admin_users@.map_values(|a: String| lowercase_of(a@)),
            r.cache_of() is None,
    {
        let mut issuer = String::from_str("https://");
        issuer.append(team_domain);
        let mut jwks_url = String::from_str("https://");
        jwks_url.append(team_domain);
        jwks_url.append("/cdn-cgi/access/certs");
        let mut admins: Vec<String> = Vec::new();
        let mut i: usize = 0;
        while i < admin_users.len()
            invariant
                i <= admin_users@.len(),
                admins@.len() == i,
                forall|j: int| 0 <= j < i ==> #[trigger] admins@[j]@ == lowercase_of(admin_users@[j]@),
            decreases admin_users@.len() - i,
        {
            admins.push(lowercase(admin_users[i].as_str()));
            i = i + 1;
        }
        let r = Validator {
            aud: String::from_str(aud),
            issuer,
            jwks_url,
            cache_ttl_ms,
            admins,
            cache: KeyCache::new(),
        };
        assert(r.admin_list() =~= admin_users@.map_values(|a: String| lowercase_of(a@)));
        r
    }

    /// Where the issuer publishes its keys.
    pub fn jwks_url(&self) -> (r: &str)
        ensures
            r@ == self.jwks_url_of(),
    {
        self.jwks_url.as_str()
    }

    /// How long fetched keys stay fresh, in milliseconds.
    pub fn cache_ttl_ms(&self) -> (r: u64)
        ensures
            r == self.ttl(),
    {
        self.cache_ttl_ms
    }

    /// The cached keys, if younger than the cache's time to live at `now_ms`.
    pub fn fresh_keys(&self, now_ms: u64) -> (r: Option<Vec<Jwk>>)
        ensures
            match r {
                Some(k) => fresh_spec(self.cache_of(), now_ms, self.ttl()) == Some(keys_view(k@)),
                None => fresh_spec(self.cache_of(), now_ms, self.ttl()) is None,
            },
    {
        self.cache.fresh_keys(now_ms, self.cache_ttl_ms)
    }

    /// Takes the result of fetching the key set at `now_ms` (`None` when the
    /// fetch failed) and returns the keys to validate with: the fetched ones,
    /// or the cached ones served stale, or `Unauthorized` with neither.
    pub fn refresh_keys(&mut self, fetched: Option<Vec<Jwk>>, now_ms: u64) -> (r: Result<Vec<Jwk>, GatewayError>)
        ensures
            final(self).admin_list() == old(self).admin_list(),
            final(self).audience() == old(self).audience(),
            final(self).issuer_of() == old(self).issuer_of(),
            final(self).jwks_url_of() == old(self).jwks_url_of(),
            final(self).ttl() == old(self).ttl(),
            ({
                let (c, out) = refresh_spec(
                    old(self).cache_of(),
                    match fetched {
                        Some(k) => Some(keys_view(k@)),
                        None => None,
                    },
                    now_ms,
                );
                &&& final(self).cache_of() == c
                &&& match (r, out) {
                    (Ok(k), Ok(kv)) => keys_view(k@) == kv,
                    (Err(e), Err(ev)) => e == ev,
                    _ => false,
                }
            }),
    {
        self.cache.refresh(fetched, now_ms)
    }

    /// Whether `username` is on the admin list.
    pub fn is_admin(&self, username: &str) -> (r: bool)
        ensures
            r == self.admin_list().contains(username@),
    {
        let u = String::from_str(username);
        let mut i: usize = 0;
        while i < self.admins.len()
            invariant
                u@ == username@,
                i <= self.admins@.len(),
                forall|j: int| 0 <= j < i ==> self.admins@[j]@ != username@,
            decreases self.admins@.len() - i,
        {
            if self.admins[i] == u {
                assert(self.admin_list()[i as int] == username@);
                return true;
            }
            i = i + 1;
        }
        assert forall|j: int| 0 <= j < self.admin_list().len() implies self.admin_list()[j] != username@ by {
            assert(self.admin_list()[j] == self.admins@[j]@);
        }
        false
    }

    /// The identity of a caller whose token carried `email`.
    pub fn identity_for(&self, email: &str) -> (r: User)
        ensures
            identity_ok(r, email@, self.admin_list()),
    {
        let username = email_to_username(email);
        let is_admin = self.is_admin(username.as_str());
        User { username, email: String::from_str(email), is_admin }
    }

    /// Validates `token` against the key set `keys`. A token whose header
    /// names no key id, or one not in `keys`, is refused; otherwise the
    /// outcome rests on the signature and claim checks, and a token that
    /// passes them gives the identity of its own email claim. Every failure is
    /// `Unauthorized`.
    pub fn validate_with_keys(&self, token: &str, keys: &Vec<Jwk>) -> (r: Result<User, GatewayError>)
        ensures
            header_key_id(token@) is None ==> r == Err::<User, GatewayError>(GatewayError::Unauthorized),
            header_key_id(token@) matches Some(kid) && !has_key(keys_view(keys@), kid) ==> r
                == Err::<User, GatewayError>(GatewayError::Unauthorized),
            r matches Err(e) ==> e == GatewayError::Unauthorized,
            r matches Ok(u) ==> identity_ok(u, u.email@, self.admin_list()) && email_claim(token@)
                == Some(u.email@),
    {
        let kid = match token_key_id(token) {
            Some(k) => k,
            None => return Err(GatewayError::Unauthorized),
        };
        let i = match find_key(keys, &kid) {
            Some(i) => i,
            None => return Err(GatewayError::Unauthorized),
        };
        assert(keys_view(keys@)[i as int] == keys@[i as int]@);
        assert(has_key(keys_view(keys@), kid@));
        let key = match rsa_key(keys[i].n.as_str(), keys[i].e.as_str()) {
            Some(k) => k,
            None => return Err(GatewayError::Unauthorized),
        };
        match verified_email(token, &key, self.aud.as_str(), self.issuer.as_str()) {
            Some(email) => {
                let user = self.identity_for(email.as_str());
                assert(identity_ok(user, email@, self.admin_list()));
                Ok(user)
            },
            None => Err(GatewayError::Unauthorized),
        }
    }
}

} // verus!
