//! What the process is configured with, read once where it starts.

use vstd::prelude::*;

verus! {

/// The configuration of the process.
#[derive(Clone, Debug, PartialEq, Eq)]
pub struct Config {
    /// Where the document store is reached.
    pub database_uri: String,
    /// The database that holds the collections.
    pub database_name: String,
    /// The origin that may read the responses.
    pub frontend_base_url: String,
    /// The secret that session cookies are sealed with.
    pub cookie_secret: String,
    /// The name of the session cookie.
    pub cookie_name: String,
}

} // verus!
