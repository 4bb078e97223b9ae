//! A minimal synchronous HTTP client core: it keeps a base address and a
//! read timeout, strips the scheme for raw connects, and renders
//! HTTP/1.1 request text from a method and a URL.
use vstd::prelude::*;

pub mod client;
pub mod headers;
pub mod request;

use crate::client::client::Client;
use crate::headers::Headers;
use crate::request::HttpError;

verus! {

/// A configured client handle: the connection configuration it drives,
/// the raw URL it was pointed at, and the request descriptor pieces
/// (headers and body) collected by the builder.
#[derive(Debug, Clone, PartialEq, Eq)]
pub struct Sling {
    pub http_client: Client,
    pub raw_url: String,
    pub read_timeout_ms: u64,
    pub body: Vec<u8>,
    pub header: Headers,
}

/// Builds a `Sling` step by step; every setter consumes the builder and
/// hands back the updated one.
#[derive(Debug, PartialEq)]
pub struct SlingBuilder {
    pub http_client: Client,
    pub raw_url: String,
    pub read_timeout_ms: u64,
    pub body: Vec<u8>,
    pub header: Headers,
}

impl Default for Sling {
    /// An empty address, no timeout, no headers and no body.
    fn default() -> (r: Self)
        ensures
            r.http_client.base_url@ == Seq::<char>::empty(),
            r.http_client.read_timeout_ms == 0,
            r.raw_url@ == Seq::<char>::empty(),
            r.read_timeout_ms == 0,
            r.body@ == Seq::<u8>::empty(),
            r.header@ == Seq::<(Seq<char>, Seq<char>)>::empty(),
            r.header.wf(),
    {
        Sling {
            http_client: Client::default(),
            raw_url: String::new(),
            read_timeout_ms: 0,
            body: Vec::new(),
            header: Headers::new(),
        }
    }
}

impl Default for SlingBuilder {
    /// An empty address, no timeout, no headers and no body.
    fn default() -> (r: Self)
        ensures
            r.http_client.base_url@ == Seq::<char>::empty(),
            r.http_client.read_timeout_ms == 0,
            r.raw_url@ == Seq::<char>::empty(),
            r.read_timeout_ms == 0,
            r.body@ == Seq::<u8>::empty(),
            r.header@ == Seq::<(Seq<char>, Seq<char>)>::empty(),
            r.header.wf(),
    {
        SlingBuilder {
            http_client: Client::default(),
            raw_url: String::new(),
            read_timeout_ms: 0,
            body: Vec::new(),
            header: Headers::new(),
        }
    }
}

impl SlingBuilder {
    /// A fresh builder: like the default one, except that the read
    /// timeout starts at ten milliseconds.
    pub fn new() -> (r: SlingBuilder)
        ensures
            r.http_client.base_url@ == Seq::<char>::empty(),
            r.http_client.read_timeout_ms == 0,
            r.raw_url@ == Seq::<char>::empty(),
            r.read_timeout_ms == 10,
            r.body@ == Seq::<u8>::empty(),
            r.header@ == Seq::<(Seq<char>, Seq<char>)>::empty(),
            r.header.wf(),
    {
        SlingBuilder {
            raw_url: String::new(),
            read_timeout_ms: 10,
            header: Headers::new(),
            body: Vec::new(),
            http_client: Client::default(),
        }
    }

    /// Points the builder, and the client under it, at the given base URL.
    pub fn set_uri(self, url: String) -> (r: SlingBuilder)
        ensures
            r.raw_url@ == url@,
            r.http_client.base_url@ == url@,
            r.http_client.read_timeout_ms == self.http_client.read_timeout_ms,
            r.read_timeout_ms == self.read_timeout_ms,
            r.body == self.body,
            r.header == self.header,
    {
        let mut s = self;
        s.http_client.address(&url);
        s.raw_url = url;
        s
    }

    /// Sets the read timeout, in milliseconds, that the underlying client
    /// applies when communicating with the server.
    pub fn set_read_timeout(self, timeout_ms: u64) -> (r: SlingBuilder)
        ensures
            r.read_timeout_ms == timeout_ms,
            r.http_client.read_timeout_ms == timeout_ms,
            r.http_client.base_url@ == self.http_client.base_url@,
            r.raw_url == self.raw_url,
            r.body == self.body,
            r.header == self.header,
    {
        let mut s = self;
        s.read_timeout_ms = timeout_ms;
        s.http_client.set_read_timeout(timeout_ms);
        s
    }

    /// Stores a header binding: the name is kept lower-cased, and a name
    /// given twice keeps its place with the newer value.
    pub fn set_header(self, header_key: &str, value: &str) -> (r: SlingBuilder)
        requires
            self.header.wf(),
            headers::valid_header_name(header_key@),
            headers::valid_header_value(value@),
        ensures
            r.header@ == headers::header_insert(self.header@, headers::lower_of(header_key@), value@),
            r.header.wf(),
            r.http_client == self.http_client,
            r.raw_url == self.raw_url,
            r.read_timeout_ms == self.read_timeout_ms,
            r.body == self.body,
    {
        let mut s = self;
        s.header.insert(header_key, value);
        s
    }

    /// Stores the body bytes associated with the request.
    pub fn set_body(self, body_value: Vec<u8>) -> (r: SlingBuilder)
        ensures
            r.body@ == body_value@,
            r.http_client == self.http_client,
            r.raw_url == self.raw_url,
            r.read_timeout_ms == self.read_timeout_ms,
            r.header == self.header,
    {
        let mut s = self;
        s.body = body_value;
        s
    }

    /// Finishes the builder, moving every piece into a `Sling`.
    pub fn build(self) -> (r: Sling)
        ensures
            r.http_client == self.http_client,
            r.raw_url == self.raw_url,
            r.read_timeout_ms == self.read_timeout_ms,
            r.body == self.body,
            r.header == self.header,
    {
        Sling {
            http_client: self.http_client,
            raw_url: self.raw_url,
            read_timeout_ms: self.read_timeout_ms,
            body: self.body,
            header: self.header,
        }
    }

    /// Hands out the client configured so far.
    pub fn http_client_used(self) -> (r: Client)
        ensures
            r == self.http_client,
    {
        self.http_client
    }
}

impl Sling {
    /// A fresh builder.
    pub fn builder() -> (r: SlingBuilder)
        ensures
            r.http_client.base_url@ == Seq::<char>::empty(),
            r.http_client.read_timeout_ms == 0,
            r.raw_url@ == Seq::<char>::empty(),
            r.read_timeout_ms == 0,
            r.body@ == Seq::<u8>::empty(),
            r.header@ == Seq::<(Seq<char>, Seq<char>)>::empty(),
            r.header.wf(),
    {
        SlingBuilder::default()
    }

    /// The raw URL this handle was pointed at.
    pub fn raw_uri(&self) -> (r: String)
        ensures
            r@ == self.raw_url@,
    {
        self.raw_url.clone()
    }

    /// Hands out the attached client.
    pub fn http_client(self) -> (r: Client)
        ensures
            r == self.http_client,
    {
        self.http_client
    }

    /// Builds a request from a path relative to the configured base URL.
    pub fn build_request_with_path(&self, method: &str, path: &str) -> (r: Result<String, HttpError>)
        ensures
            request::res_view(r) == request::build_req_spec(
                method@,
                client::client::join_base_path(self.http_client.base_url@, path@),
            ),
    {
        self.http_client.http_req_from_path(method, path)
    }

    /// Builds a request from the method and full URL supplied.
    pub fn build_http_request(&self, method: &str, url: &str) -> (r: Result<String, HttpError>)
        ensures
            request::res_view(r) == request::build_req_spec(method@, url@),
    {
        self.http_client.build_http_req(method, url)
    }
}

} // verus!
