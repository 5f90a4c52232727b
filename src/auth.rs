//! Authentication: issued tokens, bearer-token checks on requests, and the
//! Keycloak identity provider.

pub mod jwt;
pub mod middleware;
pub mod oauth2;

pub use jwt::Claims;
