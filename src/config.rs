//! The configuration that a run receives from outside: where the service is
//! and the token to use.
use vstd::prelude::*;

verus! {

/// The service's base address and the access token.
#[derive(Debug)]
pub struct AppConfig {
    pub misskey_api_url: String,
    pub misskey_access_token: String,
}

} // verus!
