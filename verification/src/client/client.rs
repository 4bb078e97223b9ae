//! The connection configuration: a stored base address, a read timeout,
//! and the request-building entry points that work from that address.
use vstd::prelude::*;

use crate::request;
use crate::request::HttpError;

verus! {

/// Whether the address begins with the literal scheme prefix `http://`.
pub open spec fn has_scheme_prefix(s: Seq<char>) -> bool {
    s.len() >= 7 && s.subrange(0, 7) == "http://"@
}

/// The address a raw connect uses: one leading `http://` is stripped if
/// present, anything else is passed through unchanged.
pub open spec fn strip_scheme(s: Seq<char>) -> Seq<char> {
    if has_scheme_prefix(s) {
        s.skip(7)
    } else {
        s
    }
}

/// The URL that joining a base address and a relative path yields: a
/// missing leading `/` on the path is inserted, and a doubled separator
/// (base ending in `/`, path starting with `/`) is reduced to one.
pub open spec fn join_base_path(base: Seq<char>, path: Seq<char>) -> Seq<char> {
    if path.len() > 0 && path[0] == '/' {
        if base.len() > 0 && base.last() == '/' {
            base + path.skip(1)
        } else {
            base + path
        }
    } else {
        base + "/"@ + path
    }
}

/// Connection configuration: the stored server address and the read
/// timeout, in milliseconds, that is applied to an opened stream. A zero
/// timeout means the platform default (block indefinitely).
#[derive(Debug, Clone, PartialEq, Eq)]
pub struct Client {
    pub base_url: String,
    pub read_timeout_ms: u64,
}

impl Default for Client {
    /// An empty address and the default (zero) read timeout.
    fn default() -> (r: Self)
        ensures
            r.base_url@ == Seq::<char>::empty(),
            r.read_timeout_ms == 0,
    {
        Client { base_url: String::new(), read_timeout_ms: 0 }
    }
}

impl Client {
    /// Stores the provided server address verbatim; nothing is validated
    /// here.
    pub fn address(&mut self, add: &String)
        ensures
            final(self).base_url@ == add@,
            final(self).read_timeout_ms == old(self).read_timeout_ms,
    {
        self.base_url = add.clone();
    }

    /// The address a raw connect uses: the stored address with exactly one
    /// leading `http://` stripped when present, and unchanged otherwise.
    pub fn connect_address(&self) -> (r: String)
        ensures
            r@ == strip_scheme(self.base_url@),
    {
        let s = self.base_url.as_str();
        let n = s.unicode_len();
        if n >= 7 {
            let is_prefix = s.get_char(0) == 'h' && s.get_char(1) == 't' && s.get_char(2) == 't'
                && s.get_char(3) == 'p' && s.get_char(4) == ':' && s.get_char(5) == '/'
                && s.get_char(6) == '/';
            proof {
                reveal_strlit("http://");
                assert forall|i: int| 0 <= i < 7 implies s@.subrange(0, 7)[i] == s@[i] by {}
            }
            if is_prefix {
                proof {
                    assert(s@.subrange(0, 7) =~= "http://"@);
                }
                let rest = s.substring_char(7, n);
                proof {
                    assert(rest@ =~= self.base_url@.skip(7));
                }
                return rest.to_owned();
            }
            proof {
                assert(s@.subrange(0, 7) != "http://"@);
            }
        }
        self.base_url.clone()
    }

    /// Whether the stored base address already ends with the separator `/`.
    pub fn check_default_path(&self) -> (r: bool)
        ensures
            r == (self.base_url@.len() > 0 && self.base_url@.last() == '/'),
    {
        let s = self.base_url.as_str();
        let n = s.unicode_len();
        if n == 0 {
            false
        } else {
            s.get_char(n - 1) == '/'
        }
    }

    /// Builds a request from a path relative to the stored base address:
    /// the two are joined with exactly one `/` between them and the result
    /// is formatted like a full URL.
    pub fn http_req_from_path(&self, method: &str, path: &str) -> (r: Result<String, HttpError>)
        ensures
            request::res_view(r) == request::build_req_spec(
                method@,
                join_base_path(self.base_url@, path@),
            ),
    {
        let starts_slash = path.unicode_len() >= 1 && path.get_char(0) == '/';
        let combined: String;
        if starts_slash {
            if self.check_default_path() {
                let n = path.unicode_len();
                let rest = path.substring_char(1, n);
                combined = self.base_url.clone().concat(rest);
                proof {
                    assert(combined@ =~= join_base_path(self.base_url@, path@));
                }
            } else {
                combined = self.base_url.clone().concat(path);
            }
        } else {
            let mut c = self.base_url.clone();
            c.append("/");
            c.append(path);
            combined = c;
        }
        self.build_http_req(method, combined.as_str())
    }

    /// Sets the read timeout, in milliseconds, for streams opened later.
    pub fn set_read_timeout(&mut self, timeout_ms: u64)
        ensures
            final(self).read_timeout_ms == timeout_ms,
            final(self).base_url@ == old(self).base_url@,
    {
        self.read_timeout_ms = timeout_ms;
    }

    /// Emits the stored address.
    pub fn get_address(&self) -> (r: String)
        ensures
            r@ == self.base_url@,
    {
        self.base_url.clone()
    }

    /// The read timeout, in milliseconds, that connects will apply.
    pub fn read_timeout(&self) -> (r: u64)
        ensures
            r == self.read_timeout_ms,
    {
        self.read_timeout_ms
    }

    /// Builds an HTTP/1.1 request from the method and URL provided: fails
    /// with `InvalidUrl` when the URL does not parse, `MissingHost` or
    /// `MissingPort` when a component is absent, and otherwise renders the
    /// request line (method upper-cased, empty path replaced by `/`), the
    /// `Host` line and the fixed `Accept` header.
    pub fn build_http_req(&self, method: &str, url: &str) -> (r: Result<String, HttpError>)
        ensures
            request::res_view(r) == request::build_req_spec(method@, url@),
    {
        match request::parse_url(url) {
            Option::None => Result::Err(HttpError::InvalidUrl),
            Option::Some(parts) => request::format_from_parts(method, &parts),
        }
    }
}

} // verus!
