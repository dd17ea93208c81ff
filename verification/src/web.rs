//! Information about the web environment the app runs in.

use std::collections::BTreeMap;
use vstd::prelude::*;

verus! {

/// Information about the web environment (if applicable).
#[derive(Clone, Debug)]
pub struct WebInfo {
    /// The browser user agent.
    pub user_agent: String,
    /// Information about the URL.
    pub location: Location,
}

/// Information about the URL.
///
/// Everything has been percent decoded (`%20` -> ` ` etc).
#[derive(Clone, Debug)]
pub struct Location {
    /// The full URL (`location.href`) without the hash, percent-decoded.
    ///
    /// Example: `"http://www.example.com:80/index.html?foo=bar"`.
    pub url: String,
    /// `location.protocol`
    ///
    /// Example: `"http:"`.
    pub protocol: String,
    /// `location.host`
    ///
    /// Example: `"example.com:80"`.
    pub host: String,
    /// `location.hostname`
    ///
    /// Example: `"example.com"`.
    pub hostname: String,
    /// `location.port`
    ///
    /// Example: `"80"`.
    pub port: String,
    /// The "#fragment" part of "www.example.com/index.html?query#fragment",
    /// with its leading `#`.
    pub hash: String,
    /// The "query" part of "www.example.com/index.html?query#fragment",
    /// without its leading `?`.
    pub query: String,
    /// The parsed "query" part: "foo=hello&bar%20&foo=world" is parsed as
    /// `{"bar ": [""], "foo": ["hello", "world"]}`.
    pub query_map: BTreeMap<String, Vec<String>>,
    /// `location.origin`
    ///
    /// Example: `"http://www.example.com:80"`.
    pub origin: String,
}

} // verus!
