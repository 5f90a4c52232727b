//! The Keycloak identity provider: its settings, the URLs of its endpoints,
//! and the reading of its answers.

use vstd::prelude::*;
use vstd::utf8::encode_utf8;

use crate::errors::{ApiError, ApiResult};
use crate::text::join;

verus! {

/// The settings of the Keycloak client.
pub struct KeycloakConfig {
    /// Keycloak issuer URL (such as https://keycloak.example.com/auth/realms/master).
    pub issuer_url: String,
    /// OAuth2 client identifier.
    pub client_id: String,
    /// OAuth2 client secret.
    pub client_secret: String,
    /// Where Keycloak sends the user back after login.
    pub redirect_uri: String,
}

/// The tokens Keycloak hands out for an authorization code.
pub struct TokenResponse {
    pub access_token: String,
    pub token_type: String,
    pub expires_in: i64,
    pub refresh_token: Option<String>,
}

/// What Keycloak's userinfo endpoint tells about a user.
pub struct UserInfo {
    pub sub: String,
    pub email: String,
    pub name: Option<String>,
    pub preferred_username: Option<String>,
    /// Keycloak realm roles.
    pub realm_access: Option<RealmAccess>,
}

/// The realm roles granted to a Keycloak user.
pub struct RealmAccess {
    pub roles: Vec<String>,
}

/// A Keycloak provider whose issuer has answered its discovery request.
pub struct KeycloakProvider {
    config: KeycloakConfig,
}

/// How the discovery request to the issuer went.
pub enum DiscoveryOutcome {
    /// The issuer could not be reached.
    Unreachable,
    /// The issuer answered with this HTTP status.
    Status(u16),
}

/// The lifetime assumed for an access token when Keycloak states none, in seconds.
pub const DEFAULT_EXPIRES_IN: i64 = 3600;

/// Bytes that percent-encoding leaves as they are: ASCII letters and digits,
/// `-`, `.`, `_` and `~`.
pub open spec fn is_unreserved(b: u8) -> bool {
    (48 <= b <= 57) || (65 <= b <= 90) || (97 <= b <= 122) || b == 45 || b == 46 || b == 95
        || b == 126
}

/// The upper-case hexadecimal digit of `d` (below 16).
pub open spec fn hex_digit_upper(d: int) -> char {
    seq!['0', '1', '2', '3', '4', '5', '6', '7', '8', '9', 'A', 'B', 'C', 'D', 'E', 'F'][d]
}

/// The percent-encoding of one byte.
pub open spec fn percent_encode_byte(b: u8) -> Seq<char> {
    if is_unreserved(b) {
        seq![b as char]
    } else {
        seq!['%', hex_digit_upper(b as int / 16), hex_digit_upper(b as int % 16)]
    }
}

/// The percent-encoding of a byte sequence, byte by byte.
pub open spec fn percent_encode(bytes: Seq<u8>) -> Seq<char>
    decreases bytes.len(),
{
    if bytes.len() == 0 {
        Seq::empty()
    } else {
        percent_encode_byte(bytes[0]) + percent_encode(bytes.drop_first())
    }
}

/// The URL-encoding of a text: the percent-encoding of its UTF-8 bytes.
pub open spec fn url_encoded(s: Seq<char>) -> Seq<char> {
    percent_encode(encode_utf8(s))
}

/// Relies on `urlencoding::encode`, which percent-encodes every UTF-8 byte
/// except ASCII letters, digits, `-`, `.`, `_` and `~`, with upper-case hex.
#[verifier::external_body]
fn url_encode(s: &str) -> (r: String)
    ensures
        r@ == url_encoded(s@),
{
    urlencoding::encode(s).into_owned()
}

/// The value of a setting: the one given, or else `default`.
fn setting_or(given: Option<String>, default: &str) -> (r: String)
    ensures
        r@ == match given {
            Some(v) => v@,
            None => default@,
        },
{
    match given {
        Some(v) => v,
        None => default.to_owned(),
    }
}

impl KeycloakConfig {
    /// Settings from the values given, each absent one replaced by its
    /// default for a local development setup.
    pub fn from_settings(
        issuer_url: Option<String>,
        client_id: Option<String>,
        client_secret: Option<String>,
        redirect_uri: Option<String>,
    ) -> (c: Self)
        ensures
            c.issuer_url@ == match issuer_url {
                Some(v) => v@,
                None => "http://localhost:8080/auth/realms/master"@,
            },
            c.client_id@ == match client_id {
                Some(v) => v@,
                None => "gcdserver-api"@,
            },
            c.client_secret@ == match client_secret {
                Some(v) => v@,
                None => "change-me-in-production"@,
            },
            c.redirect_uri@ == match redirect_uri {
                Some(v) => v@,
                None => "http://localhost:8080/auth/callback"@,
            },
    {
        KeycloakConfig {
            issuer_url: setting_or(issuer_url, "http://localhost:8080/auth/realms/master"),
            client_id: setting_or(client_id, "gcdserver-api"),
            client_secret: setting_or(client_secret, "change-me-in-production"),
            redirect_uri: setting_or(redirect_uri, "http://localhost:8080/auth/callback"),
        }
    }

    /// The issuer's OpenID discovery document.
    pub fn discovery_url(&self) -> (r: String)
        ensures
            r@ == self.issuer_url@ + "/.well-known/openid-configuration"@,
    {
        join(self.issuer_url.as_str(), "/.well-known/openid-configuration")
    }
}

impl KeycloakProvider {
    /// The settings of this provider.
    pub closed spec fn settings(&self) -> KeycloakConfig {
        self.config
    }

    /// A provider for `config`, once its discovery request went as
    /// `discovery`: the issuer must answer with a success (2xx) status.
    pub fn new(config: KeycloakConfig, discovery: DiscoveryOutcome) -> (r: ApiResult<Self>)
        ensures
            match discovery {
                DiscoveryOutcome::Unreachable => r matches Err(ApiError::InternalError(m)) && m@
                    == "Keycloak unreachable"@,
                DiscoveryOutcome::Status(s) => if 200 <= s <= 299 {
                    r matches Ok(p) && p.settings() == config
                } else {
                    r matches Err(ApiError::InternalError(m)) && m@ == "Keycloak discovery failed"@
                },
            },
    {
        match discovery {
            DiscoveryOutcome::Unreachable => Err(
                ApiError::InternalError("Keycloak unreachable".to_owned()),
            ),
            DiscoveryOutcome::Status(s) => {
                if 200 <= s && s <= 299 {
                    Ok(KeycloakProvider { config })
                } else {
                    Err(ApiError::InternalError("Keycloak discovery failed".to_owned()))
                }
            },
        }
    }

    /// The settings of this provider.
    pub fn config(&self) -> (r: &KeycloakConfig)
        ensures
            *r == self.settings(),
    {
        &self.config
    }

    /// Where to send a user to log in. The `state` value is not part of the URL.
    pub fn authorization_url(&self, _state: &str) -> (r: String)
        ensures
            r@ == self.settings().issuer_url@ + "/protocol/openid-connect/auth?client_id="@
                + url_encoded(self.settings().client_id@) + "&redirect_uri="@ + url_encoded(
                self.settings().redirect_uri@,
            ) + "&response_type=code&scope="@ + url_encoded("openid email profile"@),
    {
        let scope = url_encode("openid email profile");
        let redirect_uri = url_encode(self.config.redirect_uri.as_str());
        let client_id = url_encode(self.config.client_id.as_str());
        let mut url = join(self.config.issuer_url.as_str(), "/protocol/openid-connect/auth?client_id=");
        url.append(client_id.as_str());
        url.append("&redirect_uri=");
        url.append(redirect_uri.as_str());
        url.append("&response_type=code&scope=");
        url.append(scope.as_str());
        url
    }

    /// The token endpoint.
    pub fn token_url(&self) -> (r: String)
        ensures
            r@ == self.settings().issuer_url@ + "/protocol/openid-connect/token"@,
    {
        join(self.config.issuer_url.as_str(), "/protocol/openid-connect/token")
    }

    /// The userinfo endpoint.
    pub fn userinfo_url(&self) -> (r: String)
        ensures
            r@ == self.settings().issuer_url@ + "/protocol/openid-connect/userinfo"@,
    {
        join(self.config.issuer_url.as_str(), "/protocol/openid-connect/userinfo")
    }

    /// The form fields that exchange the authorization code `code` for tokens.
    pub fn token_request_form(&self, code: &str) -> (r: Vec<(String, String)>)
        ensures
            r@.len() == 5,
            r@[0].0@ == "grant_type"@ && r@[0].1@ == "authorization_code"@,
            r@[1].0@ == "code"@ && r@[1].1@ == code@,
            r@[2].0@ == "client_id"@ && r@[2].1@ == self.settings().client_id@,
            r@[3].0@ == "client_secret"@ && r@[3].1@ == self.settings().client_secret@,
            r@[4].0@ == "redirect_uri"@ && r@[4].1@ == self.settings().redirect_uri@,
    {
        let mut form: Vec<(String, String)> = Vec::new();
        form.push(("grant_type".to_owned(), "authorization_code".to_owned()));
        form.push(("code".to_owned(), code.to_owned()));
        form.push(("client_id".to_owned(), self.config.client_id.clone()));
        form.push(("client_secret".to_owned(), self.config.client_secret.clone()));
        form.push(("redirect_uri".to_owned(), self.config.redirect_uri.clone()));
        form
    }
}

/// Reads Keycloak's token answer from its fields: the access token is
/// required, the lifetime defaults to an hour, the refresh token is optional.
pub fn token_response_from_fields(
    access_token: Option<String>,
    expires_in: Option<i64>,
    refresh_token: Option<String>,
) -> (r: ApiResult<TokenResponse>)
    ensures
        match access_token {
            None => r matches Err(ApiError::InternalError(m)) && m@ == "Missing access_token"@,
            Some(a) => r matches Ok(t) && {
                &&& t.access_token == a
                &&& t.token_type@ == "Bearer"@
                &&& t.expires_in == match expires_in {
                    Some(e) => e,
                    None => DEFAULT_EXPIRES_IN,
                }
                &&& t.refresh_token == refresh_token
            },
        },
{
    match access_token {
        None => Err(ApiError::InternalError("Missing access_token".to_owned())),
        Some(a) => {
            let expires_in = match expires_in {
                Some(e) => e,
                None => DEFAULT_EXPIRES_IN,
            };
            Ok(
                TokenResponse {
                    access_token: a,
                    token_type: "Bearer".to_owned(),
                    expires_in,
                    refresh_token,
                },
            )
        },
    }
}

impl UserInfo {
    /// The realm roles of this user; none when Keycloak states no realm access.
    pub open spec fn roles_of(self) -> Seq<String> {
        match self.realm_access {
            Some(ra) => ra.roles@,
            None => Seq::empty(),
        }
    }

    /// The realm roles of this user.
    pub fn into_roles(self) -> (r: Vec<String>)
        ensures
            r@ == self.roles_of(),
    {
        match self.realm_access {
            Some(ra) => ra.roles,
            None => Vec::new(),
        }
    }
}

} // verus!
