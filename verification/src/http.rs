//! Plain value types of the HTTP client layer.
//!
//! The network itself is the shell's concern; what lives here are the
//! value types the rest of the code trades in: URLs, request bodies, and
//! the redirect policy, plus the client stubs that never touch the
//! network.

use vstd::prelude::*;

verus! {

/// A URL, kept as the text it was parsed from.
#[derive(Debug, Clone, PartialEq, Eq, Hash)]
pub struct Url(String);

/// Why a URL failed to parse. The browser-backed client accepts any text
/// and lets the fetch layer reject it, so parsing never fails here; the
/// variant exists for the signature's sake.
#[derive(Debug, Clone, Copy, PartialEq, Eq, Structural)]
pub enum ParseUrlError {
    Invalid,
}

impl Url {
    /// The URL's text.
    pub closed spec fn text(self) -> Seq<char> {
        self.0@
    }

    /// Parse a URL from a string. Every string is accepted and kept
    /// verbatim.
    pub fn parse(s: &str) -> (r: Result<Url, ParseUrlError>)
        ensures
            (r matches Ok(u) && u.text() == s@),
    {
        Ok(Url(s.to_string()))
    }

    /// Get the URL as a string slice.
    pub fn as_str(&self) -> (r: &str)
        ensures
            r@ == self.text(),
    {
        self.0.as_str()
    }

    /// The URL's text as an owned string, as it displays.
    pub fn display_string(&self) -> (r: String)
        ensures
            r@ == self.text(),
    {
        self.0.clone()
    }
}

/// An HTTP request or response body held in memory.
#[derive(Debug, Clone, PartialEq, Eq)]
pub enum AsyncBody {
    /// An empty body.
    Empty,
    /// A body containing bytes.
    Bytes(Vec<u8>),
}

impl Default for AsyncBody {
    fn default() -> (r: AsyncBody)
        ensures
            r is Empty,
    {
        AsyncBody::Empty
    }
}

impl From<()> for AsyncBody {
    fn from(value: ()) -> (r: AsyncBody) {
        AsyncBody::Empty
    }
}

impl vstd::std_specs::convert::FromSpecImpl<()> for AsyncBody {
    open spec fn obeys_from_spec() -> bool {
        true
    }

    open spec fn from_spec(value: ()) -> AsyncBody {
        AsyncBody::Empty
    }
}

impl From<Vec<u8>> for AsyncBody {
    fn from(value: Vec<u8>) -> (r: AsyncBody) {
        AsyncBody::Bytes(value)
    }
}

impl vstd::std_specs::convert::FromSpecImpl<Vec<u8>> for AsyncBody {
    open spec fn obeys_from_spec() -> bool {
        true
    }

    open spec fn from_spec(value: Vec<u8>) -> AsyncBody {
        AsyncBody::Bytes(value)
    }
}

impl From<String> for AsyncBody {
    fn from(value: String) -> (r: AsyncBody) {
        AsyncBody::Bytes(value.as_str().as_bytes_vec())
    }
}

/// A ghost `Vec` holding a string's UTF-8 bytes cannot be written down, so
/// this conversion carries no specification; its behavior is pinned by
/// tests instead.
impl vstd::std_specs::convert::FromSpecImpl<String> for AsyncBody {
    open spec fn obeys_from_spec() -> bool {
        false
    }

    open spec fn from_spec(value: String) -> AsyncBody {
        AsyncBody::Empty
    }
}

impl<'a> From<&'a str> for AsyncBody {
    fn from(value: &'a str) -> (r: AsyncBody) {
        AsyncBody::Bytes(value.as_bytes_vec())
    }
}

/// A ghost `Vec` holding a string's UTF-8 bytes cannot be written down, so
/// this conversion carries no specification; its behavior is pinned by
/// tests instead.
impl<'a> vstd::std_specs::convert::FromSpecImpl<&'a str> for AsyncBody {
    open spec fn obeys_from_spec() -> bool {
        false
    }

    open spec fn from_spec(value: &'a str) -> AsyncBody {
        AsyncBody::Empty
    }
}

/// Whether and how far a request follows redirects.
#[derive(Debug, Clone, PartialEq, Eq, Hash)]
pub enum RedirectPolicy {
    NoFollow,
    FollowLimit(u32),
    FollowAll,
}

impl Default for RedirectPolicy {
    fn default() -> (r: RedirectPolicy)
        ensures
            r is NoFollow,
    {
        RedirectPolicy::NoFollow
    }
}

/// A request extension flag: whether redirects are followed.
pub struct FollowRedirects(pub bool);

/// An HTTP client that refuses every request, for contexts where network
/// access is disallowed.
pub struct BlockedHttpClient;

impl BlockedHttpClient {
    pub fn new() -> (r: BlockedHttpClient) {
        BlockedHttpClient
    }

    /// A blocked client never has a user agent.
    pub fn user_agent(&self) -> (r: Option<&String>)
        ensures
            r is None,
    {
        None
    }

    /// A blocked client never has a proxy.
    pub fn proxy(&self) -> (r: Option<&Url>)
        ensures
            r is None,
    {
        None
    }
}

/// The browser-backed HTTP client: requests go through the page's fetch
/// machinery, which the shell drives; the client itself only carries the
/// user agent.
pub struct WebHttpClient {
    user_agent: Option<String>,
}

impl WebHttpClient {
    pub closed spec fn spec_user_agent(self) -> Option<Seq<char>> {
        match self.user_agent {
            Some(ua) => Some(ua@),
            None => None,
        }
    }

    /// Creates a new client with the default user agent.
    pub fn new() -> (r: WebHttpClient)
        ensures
            r.spec_user_agent() == Some("gpui-web"@),
    {
        WebHttpClient { user_agent: Some("gpui-web".to_string()) }
    }

    /// Creates a new client with a custom user agent.
    pub fn with_user_agent(user_agent: &str) -> (r: WebHttpClient)
        ensures
            r.spec_user_agent() == Some(user_agent@),
    {
        WebHttpClient { user_agent: Some(user_agent.to_string()) }
    }

    pub fn user_agent(&self) -> (r: Option<&String>)
        ensures
            match r {
                Some(ua) => self.spec_user_agent() == Some(ua@),
                None => self.spec_user_agent() is None,
            },
    {
        match &self.user_agent {
            Some(ua) => Some(ua),
            None => None,
        }
    }

    /// The browser's fetch machinery never goes through a proxy that this
    /// client knows of.
    pub fn proxy(&self) -> (r: Option<&Url>)
        ensures
            r is None,
    {
        None
    }
}

impl Default for WebHttpClient {
    fn default() -> (r: WebHttpClient)
        ensures
            r.spec_user_agent() == Some("gpui-web"@),
    {
        WebHttpClient::new()
    }
}

} // verus!
