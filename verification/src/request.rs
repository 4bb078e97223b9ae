//! Request formatting: parsing a URL into its components and rendering
//! the HTTP/1.1 request line and minimal header block.
use vstd::prelude::*;

verus! {

/// Why a request could not be formatted from a method and a URL.
#[derive(Clone, Copy, Debug, PartialEq, Eq, Structural)]
pub enum HttpError {
    /// The URL string could not be parsed as a URL at all.
    InvalidUrl,
    /// The URL parsed, but no host component is present.
    MissingHost,
    /// The URL parsed, but no explicit port component is present.
    MissingPort,
}

impl HttpError {
    /// The description of each failure, usable where a display string is
    /// expected.
    pub open spec fn message_view(self) -> Seq<char> {
        match self {
            HttpError::InvalidUrl => "invalid url supplied"@,
            HttpError::MissingHost => "invalid host provided"@,
            HttpError::MissingPort => "invalid port supplied"@,
        }
    }

    /// A short description of the failure.
    pub fn message(&self) -> (r: &'static str)
        ensures
            r@ == self.message_view(),
    {
        match self {
            HttpError::InvalidUrl => "invalid url supplied",
            HttpError::MissingHost => "invalid host provided",
            HttpError::MissingPort => "invalid port supplied",
        }
    }
}

/// What URL parsing yields for a given string: the host, the explicit
/// port, and the combined path-and-query component, as owned plain values.
pub struct UrlParts {
    pub host: Option<String>,
    pub port: Option<String>,
    pub path_and_query: Option<String>,
}

/// Whether the string parses as a URL at all.
pub uninterp spec fn uri_is_valid(url: Seq<char>) -> bool;

/// The host component of the parsed URL, if one is present.
pub uninterp spec fn uri_host(url: Seq<char>) -> Option<Seq<char>>;

/// The explicit port component of the parsed URL, as text, if present.
pub uninterp spec fn uri_port(url: Seq<char>) -> Option<Seq<char>>;

/// The combined path-and-query component of the parsed URL, if present.
pub uninterp spec fn uri_pq(url: Seq<char>) -> Option<Seq<char>>;

/// The upper-case equivalent of a string, as `str::to_uppercase` yields it.
pub uninterp spec fn upper_of(s: Seq<char>) -> Seq<char>;

/// Relies on `str::to_uppercase`: the result depends on the characters
/// alone (the mapping is not locale-dependent), and an empty string stays
/// empty.
pub assume_specification[ str::to_uppercase ](s: &str) -> (r: String)
    ensures
        r@ == upper_of(s@),
        s@.len() == 0 ==> r@.len() == 0,
;

/// Relies on `http::Uri`: `str::parse::<Uri>` together with the accessors
/// `Uri::host`, `Uri::port`, `Uri::path_and_query`, `Port::as_str` and
/// `PathAndQuery::as_str`. Parsing is a pure function of the URL string,
/// so each component is given a name over that string alone.
#[verifier::external_body]
pub(crate) fn parse_url(url: &str) -> (r: Option<UrlParts>)
    ensures
        r is Some <==> uri_is_valid(url@),
        r matches Some(p) ==> p.host.deep_view() == uri_host(url@)
            && p.port.deep_view() == uri_port(url@)
            && p.path_and_query.deep_view() == uri_pq(url@),
{
    match url.parse::<http::Uri>() {
        Ok(u) => Some(UrlParts {
            host: u.host().map(|h| h.to_owned()),
            port: u.port().map(|p| p.as_str().to_owned()),
            path_and_query: u.path_and_query().map(|pq| pq.as_str().to_owned()),
        }),
        Err(_) => None,
    }
}

/// The request target that goes on the request line: the path-and-query
/// component, with an empty or missing path replaced by the root `/`.
pub open spec fn target_of(pq: Option<Seq<char>>) -> Seq<char> {
    match pq {
        Option::None => "/"@,
        Option::Some(s) => if s.len() == 0 {
            "/"@
        } else if s[0] == '?' {
            "/"@ + s
        } else {
            s
        },
    }
}

/// The first line of a request: method, target and protocol version.
pub open spec fn request_line(method_u: Seq<char>, target: Seq<char>) -> Seq<char> {
    method_u + " "@ + target + " HTTP/1.1"@
}

/// The `Host` header line, without its terminator.
pub open spec fn host_header_line(host: Seq<char>, port: Seq<char>) -> Seq<char> {
    "Host: "@ + host + ":"@ + port
}

/// The full request text: request line, `Host` line and the fixed `Accept`
/// header, each terminated by CRLF, then the empty line ending the block.
pub open spec fn req_text(method_u: Seq<char>, target: Seq<char>, host: Seq<char>, port: Seq<char>) -> Seq<char> {
    request_line(method_u, target) + "\r\n"@ + host_header_line(host, port) + "\r\n"@
        + "Accept: */*\r\n\r\n"@
}

/// What formatting yields once the URL components are known: an error for
/// a missing host or port, else the rendered request text.
pub open spec fn parts_req_spec(
    method: Seq<char>,
    host: Option<Seq<char>>,
    port: Option<Seq<char>>,
    pq: Option<Seq<char>>,
) -> Result<Seq<char>, HttpError> {
    match host {
        Option::None => Result::Err(HttpError::MissingHost),
        Option::Some(h) => match port {
            Option::None => Result::Err(HttpError::MissingPort),
            Option::Some(p) => Result::Ok(req_text(upper_of(method), target_of(pq), h, p)),
        },
    }
}

/// What formatting yields for a method and a URL string.
pub open spec fn build_req_spec(method: Seq<char>, url: Seq<char>) -> Result<Seq<char>, HttpError> {
    if !uri_is_valid(url) {
        Result::Err(HttpError::InvalidUrl)
    } else {
        parts_req_spec(method, uri_host(url), uri_port(url), uri_pq(url))
    }
}

/// A formatting result with the text replaced by its view.
pub open spec fn res_view(r: Result<String, HttpError>) -> Result<Seq<char>, HttpError> {
    match r {
        Result::Ok(s) => Result::Ok(s@),
        Result::Err(e) => Result::Err(e),
    }
}

/// The request target for a parsed path-and-query component.
fn request_target(pq: &Option<String>) -> (r: String)
    ensures
        r@ == target_of(pq.deep_view()),
{
    match pq {
        Option::None => String::from_str("/"),
        Option::Some(s) => {
            let n = s.as_str().unicode_len();
            if n == 0 {
                String::from_str("/")
            } else if s.as_str().get_char(0) == '?' {
                let mut r = String::from_str("/");
                r.append(s.as_str());
                r
            } else {
                s.clone()
            }
        },
    }
}

/// Renders the request text from a method and already-parsed URL
/// components: fails exactly when the host or the explicit port is
/// missing, and otherwise emits the request line (method upper-cased,
/// empty path replaced by `/`), the `Host` line and the `Accept` header.
pub fn format_from_parts(method: &str, parts: &UrlParts) -> (r: Result<String, HttpError>)
    ensures
        res_view(r) == parts_req_spec(
            method@,
            parts.host.deep_view(),
            parts.port.deep_view(),
            parts.path_and_query.deep_view(),
        ),
{
    let host = match &parts.host {
        Option::Some(h) => h,
        Option::None => {
            return Result::Err(HttpError::MissingHost);
        },
    };
    let port = match &parts.port {
        Option::Some(p) => p,
        Option::None => {
            return Result::Err(HttpError::MissingPort);
        },
    };
    let target = request_target(&parts.path_and_query);
    let mut req = method.to_uppercase();
    req.append(" ");
    req.append(target.as_str());
    req.append(" HTTP/1.1");
    req.append("\r\n");
    req.append("Host: ");
    req.append(host.as_str());
    req.append(":");
    req.append(port.as_str());
    req.append("\r\n");
    req.append("Accept: */*\r\n\r\n");
    proof {
        assert(req@ =~= req_text(upper_of(method@), target_of(parts.path_and_query.deep_view()), host@, port@));
    }
    Result::Ok(req)
}

/// Whether the text fits on one line: it holds no CR and no LF.
pub open spec fn single_line(s: Seq<char>) -> bool {
    forall|i: int| 0 <= i < s.len() ==> #[trigger] s[i] != '\r' && s[i] != '\n'
}

/// A formatted request is the request line `METHOD TARGET HTTP/1.1`,
/// then the `Host` line holding exactly `host:port`, then the fixed
/// `Accept` block, each line CRLF-terminated; and as long as method and
/// target are single-line, so is the whole request line, which therefore
/// is everything before the first CRLF.
pub proof fn lemma_request_shape(method_u: Seq<char>, target: Seq<char>, host: Seq<char>, port: Seq<char>)
    ensures
        req_text(method_u, target, host, port) == request_line(method_u, target) + "\r\n"@
            + host_header_line(host, port) + "\r\n"@ + "Accept: */*\r\n\r\n"@,
        single_line(method_u) && single_line(target) ==> single_line(
            request_line(method_u, target),
        ),
{
    if single_line(method_u) && single_line(target) {
        reveal_strlit(" ");
        reveal_strlit(" HTTP/1.1");
        let line = request_line(method_u, target);
        let m = method_u.len() as int;
        let t = target.len() as int;
        assert forall|i: int| 0 <= i < line.len() implies #[trigger] line[i] != '\r' && line[i]
            != '\n' by {
            if i < m {
                assert(line[i] == method_u[i]);
            } else if i < m + 1 {
                assert(line[i] == " "@[i - m]);
            } else if i < m + 1 + t {
                assert(line[i] == target[i - m - 1]);
            } else {
                assert(line[i] == " HTTP/1.1"@[i - m - 1 - t]);
            }
        }
    }
}

/// Formatting is a pure function of its inputs: two results that both
/// meet the formatter's contract for the same method and URL are the
/// same, byte for byte.
pub proof fn lemma_format_request_idempotent(
    method: Seq<char>,
    url: Seq<char>,
    r1: Result<Seq<char>, HttpError>,
    r2: Result<Seq<char>, HttpError>,
)
    requires
        r1 == build_req_spec(method, url),
        r2 == build_req_spec(method, url),
    ensures
        r1 == r2,
{
}

} // verus!
