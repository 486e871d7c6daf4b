//! What is sent: the shape of each request, and the settings of the agent
//! that sends them. Sending itself is left to the caller.

use vstd::prelude::*;

verus! {

/// The verbs that the client uses.
#[derive(Debug, Clone, Copy, PartialEq, Eq, Structural)]
pub enum Method {
    Get,
    Head,
    Post,
}

/// The verb as it stands in a request line.
pub open spec fn method_name(method: Method) -> Seq<char> {
    match method {
        Method::Get => "GET"@,
        Method::Head => "HEAD"@,
        Method::Post => "POST"@,
    }
}

impl Method {
    /// The verb as it stands in a request line.
    pub fn name(&self) -> (r: &'static str)
        ensures
            r@ == method_name(*self),
    {
        match self {
            Method::Get => "GET",
            Method::Head => "HEAD",
            Method::Post => "POST",
        }
    }
}

/// A request, ready to be sent.
#[derive(Debug)]
pub struct Request {
    pub method: Method,
    pub url: String,
    /// Header lines to set, name and value, in order.
    pub headers: Vec<(String, String)>,
    /// The payload, if the request has one.
    pub body: Option<String>,
}

/// Mathematical value of a [`Request`].
pub struct RequestModel {
    pub method: Method,
    pub url: Seq<char>,
    pub headers: Seq<(Seq<char>, Seq<char>)>,
    pub body: Option<Seq<char>>,
}

impl View for Request {
    type V = RequestModel;

    open spec fn view(&self) -> RequestModel {
        RequestModel {
            method: self.method,
            url: self.url@,
            headers: Seq::new(
                self.headers.len() as nat,
                |i: int| (self.headers[i].0@, self.headers[i].1@),
            ),
            body: match self.body {
                Some(b) => Some(b@),
                None => None,
            },
        }
    }
}

/// The media type of a signed envelope.
pub const JOSE_CONTENT_TYPE: &'static str = "application/jose+json";

/// The request that fetches `url`.
pub open spec fn get_model(url: Seq<char>) -> RequestModel {
    RequestModel { method: Method::Get, url, headers: Seq::empty(), body: None }
}

/// The request that asks for the headers of `url`.
pub open spec fn head_model(url: Seq<char>) -> RequestModel {
    RequestModel { method: Method::Head, url, headers: Seq::empty(), body: None }
}

/// The request that posts a signed envelope to `url`.
pub open spec fn post_model(url: Seq<char>, body: Seq<char>) -> RequestModel {
    RequestModel {
        method: Method::Post,
        url,
        headers: seq![("content-type"@, JOSE_CONTENT_TYPE@)],
        body: Some(body),
    }
}

/// A GET of `url`, without headers or payload.
pub fn get_request(url: &str) -> (r: Request)
    ensures
        r@ == get_model(url@),
{
    let r = Request {
        method: Method::Get,
        url: String::from_str(url),
        headers: Vec::new(),
        body: None,
    };
    proof {
        assert(r@.headers =~= Seq::empty());
    }
    r
}

/// A HEAD of `url`, without headers or payload.
pub fn head_request(url: &str) -> (r: Request)
    ensures
        r@ == head_model(url@),
{
    let r = Request {
        method: Method::Head,
        url: String::from_str(url),
        headers: Vec::new(),
        body: None,
    };
    proof {
        assert(r@.headers =~= Seq::empty());
    }
    r
}

/// A POST of `body` to `url`, declared as `application/jose+json`.
pub fn post_request(url: &str, body: &str) -> (r: Request)
    ensures
        r@ == post_model(url@, body@),
{
    let mut headers: Vec<(String, String)> = Vec::new();
    headers.push((String::from_str("content-type"), String::from_str(JOSE_CONTENT_TYPE)));
    let r = Request {
        method: Method::Post,
        url: String::from_str(url),
        headers,
        body: Some(String::from_str(body)),
    };
    proof {
        assert(r@.headers =~= seq![("content-type"@, JOSE_CONTENT_TYPE@)]);
    }
    r
}

/// The seconds after which connecting, reading and writing each give up.
pub const TIMEOUT_SECS: u64 = 30;

/// The timeouts of an agent, in whole seconds; `None` where none was set.
#[derive(Debug, Clone, Copy, PartialEq, Eq, Structural)]
pub struct AgentSettings {
    pub timeout_connect: Option<u64>,
    pub timeout_read: Option<u64>,
    pub timeout_write: Option<u64>,
}

/// The settings that every agent of this client runs with.
pub open spec fn configured(agent: AgentSettings) -> AgentSettings {
    AgentSettings {
        timeout_connect: Some(TIMEOUT_SECS),
        timeout_read: Some(TIMEOUT_SECS),
        timeout_write: Some(TIMEOUT_SECS),
    }
}

impl AgentSettings {
    /// Settings in which no timeout was set.
    pub fn new() -> (r: AgentSettings)
        ensures
            r == (AgentSettings { timeout_connect: None, timeout_read: None, timeout_write: None }),
    {
        AgentSettings { timeout_connect: None, timeout_read: None, timeout_write: None }
    }
}

/// Sets the three timeouts to [`TIMEOUT_SECS`].
pub fn req_configure(agent: AgentSettings) -> (r: AgentSettings)
    ensures
        r == configured(agent),
{
    AgentSettings {
        timeout_connect: Some(TIMEOUT_SECS),
        timeout_read: Some(TIMEOUT_SECS),
        timeout_write: Some(TIMEOUT_SECS),
    }
}

/// The settings of the shared agent. Every call gives the same settings.
pub fn agent_settings() -> (r: AgentSettings)
    ensures
        r == configured(AgentSettings { timeout_connect: None, timeout_read: None, timeout_write: None }),
        r.timeout_connect == Some(TIMEOUT_SECS),
        r.timeout_read == Some(TIMEOUT_SECS),
        r.timeout_write == Some(TIMEOUT_SECS),
{
    req_configure(AgentSettings::new())
}

/// Configuring is idempotent, and what it gives does not depend on what the
/// settings were before: any two configured agents have the same timeouts.
pub proof fn lemma_configured_is_fixed(a: AgentSettings, b: AgentSettings)
    ensures
        configured(configured(a)) == configured(a),
        configured(a) == configured(b),
{
}

} // verus!
