//! The application configuration handed in from outside, the Authorization
//! header built from an acquired token, and the remote endpoint URLs.

use vstd::prelude::*;
use vstd::string::*;

verus! {

/// The externally supplied configuration: OAuth2 client-credentials inputs
/// and the remote instance's base URL.
pub struct AppConfig {
    pub client_id: String,
    pub client_secret: String,
    pub scope: String,
    pub auth_url: String,
    pub token_url: String,
    pub instance_url: String,
}

impl Default for AppConfig {
    fn default() -> (c: AppConfig)
        ensures
            c.client_id@.len() == 0,
            c.client_secret@.len() == 0,
            c.scope@.len() == 0,
            c.auth_url@.len() == 0,
            c.token_url@.len() == 0,
            c.instance_url@.len() == 0,
    {
        AppConfig {
            client_id: String::new(),
            client_secret: String::new(),
            scope: String::new(),
            auth_url: String::new(),
            token_url: String::new(),
            instance_url: String::new(),
        }
    }
}

/// The Authorization header value that carries a bearer token.
pub open spec fn spec_bearer_header(token: Seq<char>) -> Seq<char> {
    "Bearer "@ + token
}

/// Formats the Authorization header value for an acquired access token.
pub fn bearer_header(token: &str) -> (h: String)
    ensures
        h@ == spec_bearer_header(token@),
{
    let mut h = String::from_str("Bearer ");
    h.append(token);
    h
}

/// The search endpoint of an instance.
pub fn search_url(instance_url: &str) -> (u: String)
    ensures
        u@ == instance_url@ + "/api/asset/search"@,
{
    let mut u = String::from_str(instance_url);
    u.append("/api/asset/search");
    u
}

/// The asset-creation endpoint of an instance.
pub fn assets_url(instance_url: &str) -> (u: String)
    ensures
        u@ == instance_url@ + "/api/asset/assets"@,
{
    let mut u = String::from_str(instance_url);
    u.append("/api/asset/assets");
    u
}

/// The read-only listing endpoint of an instance, used only to verify
/// connectivity; the remote API parenthesises its query-parameter names and
/// the sort direction is the URL-encoded `+Id`.
pub fn listing_url(instance_url: &str) -> (u: String)
    ensures
        u@ == instance_url@ + "/api/asset/assets?(limit)=25&(sort)=%2BId"@,
{
    let mut u = String::from_str(instance_url);
    u.append("/api/asset/assets?(limit)=25&(sort)=%2BId");
    u
}

} // verus!
