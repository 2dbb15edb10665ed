//! The two static page bodies: the welcome page and the health check.

use vstd::prelude::*;
use vstd::string::StringExecFns;

verus! {

/// The HTML fragment served at the root route.
pub open spec fn home_html() -> Seq<char> {
    "<h1>Welcome to Artchain</h1>\n    <p>This is nft marketplace backend is running!</p>"@
}

/// The fixed plaintext health string.
pub open spec fn health_text() -> Seq<char> {
    "Artchain API is healthy and running smooth"@
}

/// Body of the welcome page.
pub fn home_page() -> (r: String)
    ensures
        r@ == home_html(),
{
    String::from_str(
        "<h1>Welcome to Artchain</h1>\n    <p>This is nft marketplace backend is running!</p>",
    )
}

/// Body of the health-check response: always the same fixed string.
pub fn health_message() -> (r: String)
    ensures
        r@ == health_text(),
{
    String::from_str("Artchain API is healthy and running smooth")
}

} // verus!
