//! The client for one device: its address, the requests that go to it
//! and the reading of what comes back. Nothing here touches the network;
//! whoever owns the transport performs the requests.

pub mod http;

use vstd::prelude::*;
use vstd::string::StringExecFns;
use crate::error::AwtrixError;
use crate::text::chars_of;

verus! {

/// The serialization of the URL that `url::Url::parse` makes of a text;
/// `None` where it makes none.
pub uninterp spec fn url_parsed(text: Seq<char>) -> Option<Seq<char>>;

/// The serialization of the URL that `url::Url::join` makes of a
/// reference, taken against the URL that `url::Url::parse` makes of
/// `base`; `None` where either makes none.
pub uninterp spec fn url_joined(base: Seq<char>, reference: Seq<char>) -> Option<Seq<char>>;

/// `url::Url::parse`, with the URL handed out as its serialization. The
/// result is named `url_parsed`: it is decided by the text alone.
#[verifier::external_body]
fn parse_url(text: &str) -> (r: Result<String, url::ParseError>)
    ensures
        r is Ok <==> url_parsed(text@) is Some,
        r matches Ok(u) ==> url_parsed(text@) == Some(u@),
{
    match url::Url::parse(text) {
        Ok(u) => Ok(String::from(u)),
        Err(e) => Err(e),
    }
}

/// `url::Url::join`, on the URL that `url::Url::parse` makes of `base`,
/// with the URL handed out as its serialization. The result is named
/// `url_joined`: it is decided by the two texts alone.
#[verifier::external_body]
fn join_url(base: &str, reference: &str) -> (r: Result<String, url::ParseError>)
    ensures
        r is Ok <==> url_joined(base@, reference@) is Some,
        r matches Ok(u) ==> url_joined(base@, reference@) == Some(u@),
{
    match url::Url::parse(base) {
        Ok(b) => match b.join(reference) {
            Ok(u) => Ok(String::from(u)),
            Err(e) => Err(e),
        },
        Err(e) => Err(e),
    }
}

/// Whether `v` starts with the characters of `prefix`.
pub fn starts_with(v: &Vec<char>, prefix: &str) -> (b: bool)
    ensures
        b == prefix@.is_prefix_of(v@),
{
    let p = chars_of(prefix);
    if p.len() > v.len() {
        return false;
    }
    let mut i: usize = 0;
    while i < p.len()
        invariant
            i <= p.len() <= v.len(),
            p@ == prefix@,
            forall|j: int| 0 <= j < i ==> p[j] == v[j],
        decreases p.len() - i,
    {
        if p[i] != v[i] {
            return false;
        }
        i += 1;
    }
    true
}

/// Whether a host is written with its scheme.
pub open spec fn has_scheme(host: Seq<char>) -> bool {
    "http://"@.is_prefix_of(host) || "https://"@.is_prefix_of(host)
}

/// The address that a host stands for: the host as it is where it is
/// written with its scheme, and after `http://` where it is not.
pub open spec fn address_of(host: Seq<char>) -> Seq<char> {
    if has_scheme(host) {
        host
    } else {
        "http://"@ + host
    }
}

/// The client for one device.
#[derive(Debug, Clone)]
pub struct Client {
    base_url: String,
}

impl Client {
    /// The base URL of the device, as text.
    pub closed spec fn base(&self) -> Seq<char> {
        self.base_url@
    }

    /// The client for the device at `host`. No connection is made; the
    /// only failure is a host that makes no URL.
    pub fn new(host: &str) -> (r: Result<Client, AwtrixError>)
        ensures
            match url_parsed(address_of(host@)) {
                Some(u) => r is Ok && r->Ok_0.base() == u,
                None => r is Err && r->Err_0 is Url,
            },
    {
        let chars = chars_of(host);
        let parsed = if starts_with(&chars, "http://") || starts_with(&chars, "https://") {
            parse_url(host)
        } else {
            let address = String::from_str("http://").concat(host);
            parse_url(address.as_str())
        };
        match parsed {
            Ok(base_url) => Ok(Client { base_url }),
            Err(e) => Err(AwtrixError::Url(e)),
        }
    }

    /// The base URL of the device.
    pub fn base_url(&self) -> (u: &str)
        ensures
            u@ == self.base(),
    {
        self.base_url.as_str()
    }

    /// The URL of an endpoint of the device: `endpoint` taken against the
    /// base URL. The only failure is an endpoint that makes no URL.
    pub fn build_url(&self, endpoint: &str) -> (r: Result<String, AwtrixError>)
        ensures
            match url_joined(self.base(), endpoint@) {
                Some(u) => r is Ok && r->Ok_0@ == u,
                None => r is Err && r->Err_0 is Url,
            },
    {
        match join_url(self.base_url.as_str(), endpoint) {
            Ok(u) => Ok(u),
            Err(e) => Err(AwtrixError::Url(e)),
        }
    }
}

/// Collects what a client is made from. The time limit, the number of
/// retries and the user agent are for the transport; the host is for the
/// client.
#[derive(Debug, Clone)]
pub struct ClientBuilder {
    host: Option<String>,
    timeout_secs: u64,
    retry_count: u32,
    user_agent: String,
}

/// `ClientBuilder` with its texts as sequences of characters.
pub struct ClientBuilderView {
    pub host: Option<Seq<char>>,
    pub timeout_secs: u64,
    pub retry_count: u32,
    pub user_agent: Seq<char>,
}

impl View for ClientBuilder {
    type V = ClientBuilderView;

    closed spec fn view(&self) -> ClientBuilderView {
        ClientBuilderView {
            host: crate::text::text_of(self.host),
            timeout_secs: self.timeout_secs,
            retry_count: self.retry_count,
            user_agent: self.user_agent@,
        }
    }
}

impl ClientBuilder {
    /// A builder without a host, with a time limit of 30 seconds, 3
    /// retries and this library's user agent.
    pub fn new() -> (b: ClientBuilder)
        ensures
            b@ == (ClientBuilderView {
                host: None,
                timeout_secs: 30,
                retry_count: 3,
                user_agent: "awtrix3-rs/1.0.0"@,
            }),
    {
        ClientBuilder {
            host: None,
            timeout_secs: 30,
            retry_count: 3,
            user_agent: String::from_str("awtrix3-rs/1.0.0"),
        }
    }

    pub fn host(self, host: &str) -> (b: ClientBuilder)
        ensures
            b@ == (ClientBuilderView { host: Some(host@), ..self@ }),
    {
        let mut b = self;
        b.host = Some(String::from_str(host));
        b
    }

    /// Sets the time limit of a request, in seconds.
    pub fn timeout(self, seconds: u64) -> (b: ClientBuilder)
        ensures
            b@ == (ClientBuilderView { timeout_secs: seconds, ..self@ }),
    {
        let mut b = self;
        b.timeout_secs = seconds;
        b
    }

    pub fn retry_count(self, count: u32) -> (b: ClientBuilder)
        ensures
            b@ == (ClientBuilderView { retry_count: count, ..self@ }),
    {
        let mut b = self;
        b.retry_count = count;
        b
    }

    pub fn user_agent(self, user_agent: &str) -> (b: ClientBuilder)
        ensures
            b@ == (ClientBuilderView { user_agent: user_agent@, ..self@ }),
    {
        let mut b = self;
        b.user_agent = String::from_str(user_agent);
        b
    }

    /// The time limit of a request, in seconds.
    pub fn timeout_secs(&self) -> (seconds: u64)
        ensures
            seconds == self@.timeout_secs,
    {
        self.timeout_secs
    }

    /// The number of retries.
    pub fn retries(&self) -> (count: u32)
        ensures
            count == self@.retry_count,
    {
        self.retry_count
    }

    /// The user agent.
    pub fn agent(&self) -> (agent: &str)
        ensures
            agent@ == self@.user_agent,
    {
        self.user_agent.as_str()
    }

    /// The client for the host given. A builder without a host fails
    /// with `Config`; a host that makes no URL fails with `Url`.
    pub fn build(self) -> (r: Result<Client, AwtrixError>)
        ensures
            match self@.host {
                None => r matches Err(AwtrixError::Config(m)) && m@ == "Host is required"@,
                Some(host) => match url_parsed(address_of(host)) {
                    Some(u) => r is Ok && r->Ok_0.base() == u,
                    None => r is Err && r->Err_0 is Url,
                },
            },
    {
        match self.host {
            None => Err(AwtrixError::Config(String::from_str("Host is required"))),
            Some(host) => Client::new(host.as_str()),
        }
    }
}

impl Default for ClientBuilder {
    fn default() -> (b: ClientBuilder)
        ensures
            b@ == (ClientBuilderView {
                host: None,
                timeout_secs: 30,
                retry_count: 3,
                user_agent: "awtrix3-rs/1.0.0"@,
            }),
    {
        ClientBuilder::new()
    }
}

} // verus!
