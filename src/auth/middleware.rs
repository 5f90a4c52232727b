//! The decisions of the authentication middleware: which requests pass
//! without a token, which are turned away, and which token to check.

use std::rc::Rc;

use vstd::prelude::*;

use crate::text::{has_prefix, is_prefix_of, same_text, trim_repeated, trim_start_repeated};

verus! {

/// The claims of a validated Keycloak access token.
pub struct KeycloakClaims {
    pub sub: String,
    pub email: String,
    pub exp: i64,
    pub realm_access: Option<RealmAccess>,
}

/// The realm roles granted to a Keycloak user.
pub struct RealmAccess {
    pub roles: Vec<String>,
}

impl KeycloakClaims {
    /// The realm roles these claims grant; none when the token carries no realm access.
    pub open spec fn roles_of(self) -> Seq<String> {
        match self.realm_access {
            Some(ra) => ra.roles@,
            None => Seq::empty(),
        }
    }

    /// The realm roles these claims grant.
    pub fn into_roles(self) -> (r: Vec<String>)
        ensures
            r@ == self.roles_of(),
    {
        match self.realm_access {
            Some(ra) => ra.roles,
            None => Vec::new(),
        }
    }
}

/// Middleware that checks bearer tokens against a Keycloak public key.
pub struct AuthMiddleware {
    /// The Keycloak public key, PEM encoded.
    public_key_pem: String,
}

/// The middleware placed in front of one service.
pub struct AuthMiddlewareService<S> {
    service: Rc<S>,
    public_key_pem: String,
}

impl AuthMiddleware {
    /// The public key this middleware checks tokens with.
    pub closed spec fn key_pem(&self) -> String {
        self.public_key_pem
    }

    /// Middleware checking tokens against `public_key_pem`.
    pub fn new(public_key_pem: String) -> (m: Self)
        ensures
            m.key_pem() == public_key_pem,
    {
        AuthMiddleware { public_key_pem }
    }

    /// Places this middleware in front of `service`.
    pub fn new_transform<S>(&self, service: S) -> (m: AuthMiddlewareService<S>)
        ensures
            *m.inner() == service,
            m.key_pem() == self.key_pem(),
    {
        AuthMiddlewareService { service: Rc::new(service), public_key_pem: self.public_key_pem.clone() }
    }
}

impl<S> AuthMiddlewareService<S> {
    /// The service behind the middleware.
    pub closed spec fn inner(&self) -> Rc<S> {
        self.service
    }

    /// The public key the middleware checks tokens with.
    pub closed spec fn key_pem(&self) -> String {
        self.public_key_pem
    }

    /// The service behind the middleware.
    pub fn service(&self) -> (r: &Rc<S>)
        ensures
            *r == self.inner(),
    {
        &self.service
    }

    /// The public key the middleware checks tokens with, PEM encoded.
    pub fn public_key_pem(&self) -> (r: &str)
        ensures
            r@ == self.key_pem()@,
    {
        self.public_key_pem.as_str()
    }
}

/// What a request carries in its `Authorization` header.
pub enum HeaderText {
    /// No such header.
    Missing,
    /// A header that is not visible ASCII text.
    Unreadable,
    /// A header with this text.
    Text(String),
}

/// What the middleware does next with a request.
pub enum AuthStep {
    /// Hand the request on to the service.
    Forward,
    /// Check this bearer token, then decide with `token_step`.
    Validate(String),
    /// Answer at once with this HTTP status and error message.
    Reject { status: u16, message: String },
}

/// How checking a bearer token went.
pub enum TokenCheck {
    /// The public key could not be loaded.
    KeyUnavailable,
    /// The token is malformed, badly signed or expired.
    Invalid,
    /// The token is valid; its claims are attached to the request.
    Valid,
}

/// Requests to these paths need no token.
pub open spec fn is_public_path(path: Seq<char>) -> bool {
    path == "/health"@ || is_prefix_of("/auth/"@, path)
}

/// `step` answers at once with `status` and the message `text`.
pub open spec fn is_rejection(step: AuthStep, status: u16, text: Seq<char>) -> bool {
    step matches AuthStep::Reject { status: s, message: m } && s == status && m@ == text
}

/// Whether requests to `path` need no token.
pub fn public_path(path: &str) -> (r: bool)
    ensures
        r == is_public_path(path@),
{
    same_text(path, "/health") || has_prefix(path, "/auth/")
}

fn reject(status: u16, message: &str) -> (step: AuthStep)
    ensures
        is_rejection(step, status, message@),
{
    AuthStep::Reject { status, message: message.to_owned() }
}

/// The first decision on a request to `path`: public paths pass; otherwise
/// the `Authorization` header must hold `Bearer ` followed by the token,
/// which is then checked (every leading `Bearer ` is stripped from it).
pub fn route_request(path: &str, header: HeaderText) -> (step: AuthStep)
    ensures
        is_public_path(path@) ==> step is Forward,
        !is_public_path(path@) ==> match header {
            HeaderText::Missing => is_rejection(step, 401, "Missing authorization header"@),
            HeaderText::Unreadable => is_rejection(step, 401, "Invalid authorization header"@),
            HeaderText::Text(v) => if is_prefix_of("Bearer "@, v@) {
                step matches AuthStep::Validate(t) && t@ == trim_repeated(v@, "Bearer "@)
            } else {
                is_rejection(step, 401, "Invalid authorization header format"@)
            },
        },
{
    if public_path(path) {
        return AuthStep::Forward;
    }
    match header {
        HeaderText::Missing => reject(401, "Missing authorization header"),
        HeaderText::Unreadable => reject(401, "Invalid authorization header"),
        HeaderText::Text(v) => {
            if has_prefix(v.as_str(), "Bearer ") {
                AuthStep::Validate(trim_start_repeated(v.as_str(), "Bearer "))
            } else {
                reject(401, "Invalid authorization header format")
            }
        },
    }
}

/// The decision once the bearer token has been checked.
pub fn token_step(check: TokenCheck) -> (step: AuthStep)
    ensures
        match check {
            TokenCheck::KeyUnavailable => is_rejection(step, 500, "Token validation unavailable"@),
            TokenCheck::Invalid => is_rejection(step, 401, "Invalid or expired token"@),
            TokenCheck::Valid => step is Forward,
        },
{
    match check {
        TokenCheck::KeyUnavailable => reject(500, "Token validation unavailable"),
        TokenCheck::Invalid => reject(401, "Invalid or expired token"),
        TokenCheck::Valid => AuthStep::Forward,
    }
}

} // verus!
