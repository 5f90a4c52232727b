//! The login endpoints' inputs.

use vstd::prelude::*;

verus! {

/// The query of Keycloak's redirect back to the service after login.
pub struct OAuth2CallbackQuery {
    pub code: String,
    pub state: String,
}

} // verus!
