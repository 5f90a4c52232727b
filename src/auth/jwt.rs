//! Tokens issued by the service itself: their claims, their lifetime, and
//! the scopes they grant.

use vstd::prelude::*;

use jsonwebtoken::{DecodingKey, EncodingKey};

use crate::clock::now_utc;
use crate::ids::{is_uuid_v4_text, new_v4_text};
use crate::text::same_text;

verus! {

#[verifier::external_type_specification]
#[verifier::external_body]
pub struct ExEncodingKey(jsonwebtoken::EncodingKey);

#[verifier::external_type_specification]
#[verifier::external_body]
pub struct ExDecodingKey(jsonwebtoken::DecodingKey);

/// Relies on `jsonwebtoken::EncodingKey::from_secret`, which copies the
/// secret into an HMAC signing key and cannot fail.
pub assume_specification[ jsonwebtoken::EncodingKey::from_secret ](secret: &[u8]) -> EncodingKey;

/// Relies on `jsonwebtoken::DecodingKey::from_secret`, which copies the
/// secret into an HMAC verification key and cannot fail.
pub assume_specification[ jsonwebtoken::DecodingKey::from_secret ](secret: &[u8]) -> DecodingKey;

/// The claims of a token issued by the service.
pub struct Claims {
    /// The user the token is for.
    pub sub: String,
    pub email: String,
    /// The OAuth2 scopes the token grants.
    pub scopes: Vec<String>,
    /// Expiry, in seconds since the Unix epoch.
    pub exp: i64,
    /// Issue time, in seconds since the Unix epoch.
    pub iat: i64,
    /// The token's own unique identifier.
    pub jti: String,
    /// The OAuth2 provider that vouched for the user.
    pub provider: String,
}

/// A token handed out to a client.
pub struct TokenResponse {
    pub access_token: String,
    pub token_type: String,
    /// Lifetime in seconds.
    pub expires_in: i64,
    pub refresh_token: Option<String>,
}

/// Issues and checks the service's own HMAC-signed tokens.
pub struct JwtManager {
    encoding_key: EncodingKey,
    decoding_key: DecodingKey,
    expiration_hours: i64,
}

/// Seconds in an hour.
pub const SECONDS_PER_HOUR: i64 = 3600;

/// Whether `x` fits in an `i64`.
pub open spec fn fits_i64(x: int) -> bool {
    i64::MIN <= x <= i64::MAX
}

/// Whether `claims` grants the scope `scope`.
pub open spec fn grants(claims: Claims, scope: Seq<char>) -> bool {
    exists|k: int| 0 <= k < claims.scopes@.len() && #[trigger] claims.scopes@[k]@ == scope
}

impl JwtManager {
    /// How many hours an issued token lives.
    pub closed spec fn hours(&self) -> i64 {
        self.expiration_hours
    }

    /// A manager signing with `secret`, issuing tokens that live `expiration_hours` hours.
    pub fn new(secret: &str, expiration_hours: i64) -> (m: Self)
        ensures
            m.hours() == expiration_hours,
    {
        JwtManager {
            encoding_key: EncodingKey::from_secret(secret.as_bytes()),
            decoding_key: DecodingKey::from_secret(secret.as_bytes()),
            expiration_hours,
        }
    }

    /// How many hours an issued token lives.
    pub fn expiration_hours(&self) -> (r: i64)
        ensures
            r == self.hours(),
    {
        self.expiration_hours
    }

    /// The key tokens are signed with.
    pub fn encoding_key(&self) -> &EncodingKey {
        &self.encoding_key
    }

    /// The key tokens are checked with.
    pub fn decoding_key(&self) -> &DecodingKey {
        &self.decoding_key
    }

    /// The claims of a token issued at `issued_at` (seconds since the epoch)
    /// with identifier `jti`; none when the expiry does not fit in an `i64`.
    pub fn issue_claims(
        &self,
        user_id: &str,
        email: &str,
        scopes: Vec<String>,
        provider: &str,
        issued_at: i64,
        jti: String,
    ) -> (r: Option<Claims>)
        ensures
            r is Some <==> fits_i64(issued_at + self.hours() * SECONDS_PER_HOUR),
            r matches Some(c) ==> {
                &&& c.sub@ == user_id@
                &&& c.email@ == email@
                &&& c.scopes@ == scopes@
                &&& c.iat == issued_at
                &&& c.exp == issued_at + self.hours() * SECONDS_PER_HOUR
                &&& c.jti == jti
                &&& c.provider@ == provider@
            },
    {
        let lifetime = self.expiration_hours as i128 * 3600;
        let exp = issued_at as i128 + lifetime;
        if exp < i64::MIN as i128 || exp > i64::MAX as i128 {
            return None;
        }
        Some(
            Claims {
                sub: user_id.to_owned(),
                email: email.to_owned(),
                scopes,
                exp: exp as i64,
                iat: issued_at,
                jti,
                provider: provider.to_owned(),
            },
        )
    }

    /// The claims of a token issued now, under a fresh random identifier;
    /// none when the expiry does not fit in an `i64`.
    pub fn prepare_claims(&self, user_id: &str, email: &str, scopes: Vec<String>, provider: &str) -> (r:
        Option<Claims>)
        ensures
            r matches Some(c) ==> {
                &&& c.sub@ == user_id@
                &&& c.email@ == email@
                &&& c.scopes@ == scopes@
                &&& c.exp == c.iat + self.hours() * SECONDS_PER_HOUR
                &&& is_uuid_v4_text(c.jti@)
                &&& c.provider@ == provider@
            },
    {
        let now = now_utc();
        let jti = new_v4_text();
        self.issue_claims(user_id, email, scopes, provider, now.unix_seconds, jti)
    }

    /// The answer handing out the signed token `access_token`: a bearer token
    /// living the manager's lifetime in seconds; none when that lifetime does
    /// not fit in an `i64`.
    pub fn token_response(&self, access_token: String) -> (r: Option<TokenResponse>)
        ensures
            r is Some <==> fits_i64(self.hours() * SECONDS_PER_HOUR),
            r matches Some(t) ==> {
                &&& t.access_token == access_token
                &&& t.token_type@ == "Bearer"@
                &&& t.expires_in == self.hours() * SECONDS_PER_HOUR
                &&& t.refresh_token is None
            },
    {
        let lifetime = self.expiration_hours as i128 * 3600;
        if lifetime < i64::MIN as i128 || lifetime > i64::MAX as i128 {
            return None;
        }
        Some(
            TokenResponse {
                access_token,
                token_type: "Bearer".to_owned(),
                expires_in: lifetime as i64,
                refresh_token: None,
            },
        )
    }

    /// Whether `claims` grants `required_scope`.
    pub fn has_scope(&self, claims: &Claims, required_scope: &str) -> (r: bool)
        ensures
            r == grants(*claims, required_scope@),
    {
        let n = claims.scopes.len();
        let mut k: usize = 0;
        while k < n
            invariant
                n == claims.scopes@.len(),
                k <= n,
                forall|j: int| 0 <= j < k ==> #[trigger] claims.scopes@[j]@ != required_scope@,
            decreases n - k,
        {
            if same_text(claims.scopes[k].as_str(), required_scope) {
                return true;
            }
            k += 1;
        }
        false
    }

    /// Whether `claims` grants at least one of `required_scopes`.
    pub fn has_any_scope(&self, claims: &Claims, required_scopes: &[&str]) -> (r: bool)
        ensures
            r == exists|m: int|
                0 <= m < required_scopes@.len() && grants(*claims, #[trigger] required_scopes@[m]@),
    {
        let n = required_scopes.len();
        let mut m: usize = 0;
        while m < n
            invariant
                n == required_scopes@.len(),
                m <= n,
                forall|j: int| 0 <= j < m ==> !grants(*claims, #[trigger] required_scopes@[j]@),
            decreases n - m,
        {
            if self.has_scope(claims, required_scopes[m]) {
                return true;
            }
            m += 1;
        }
        false
    }
}

} // verus!
