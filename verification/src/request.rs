//! The read-only request facade: the engine's per-connection snapshot as
//! plain values, with typed accessors over it.
//!
//! The engine owns the real snapshot and its buffers; the FFI layer copies
//! each field over as plain bytes for the duration of one callback
//! invocation, and everything here is a pure view of that copy.

use vstd::prelude::*;
use crate::extract::{extract_text, spec_extract};
use crate::headers::{spec_find, table_entries, Header, Headers};
use crate::numtext::{all_digits, dec_value, parse_u64};

verus! {

/// The engine's request snapshot for one connection: request line fields,
/// remote endpoint, SSL flag, and the fixed-capacity header table.  A text
/// field is `None` where the engine left its pointer null.
pub struct RequestInfo {
    pub request_method: Option<Vec<u8>>,
    pub uri: Option<Vec<u8>>,
    pub http_version: Option<Vec<u8>>,
    pub query_string: Option<Vec<u8>>,
    pub remote_user: Option<Vec<u8>>,
    pub remote_addr: Option<Vec<u8>>,
    pub remote_ip: u32,
    pub remote_port: u16,
    pub is_ssl: bool,
    pub headers: Vec<Header>,
}

impl RequestInfo {
    /// The request method text.
    pub fn method(&self) -> (r: Option<String>)
        ensures
            r.deep_view() == spec_extract(self.request_method),
    {
        extract_text(&self.request_method)
    }

    /// The request URI.
    pub fn url(&self) -> (r: Option<String>)
        ensures
            r.deep_view() == spec_extract(self.uri),
    {
        extract_text(&self.uri)
    }

    /// The protocol version text.
    pub fn http_version(&self) -> (r: Option<String>)
        ensures
            r.deep_view() == spec_extract(self.http_version),
    {
        extract_text(&self.http_version)
    }

    /// The query string, absent when the request had none.
    pub fn query_string(&self) -> (r: Option<String>)
        ensures
            r.deep_view() == spec_extract(self.query_string),
    {
        extract_text(&self.query_string)
    }

    /// The authenticated remote user, if the engine knows one.
    pub fn remote_user(&self) -> (r: Option<String>)
        ensures
            r.deep_view() == spec_extract(self.remote_user),
    {
        extract_text(&self.remote_user)
    }

    /// The printable remote address; "0.0.0.0" when absent or malformed.
    pub fn remote_addr(&self) -> (r: String)
        ensures
            match spec_extract(self.remote_addr) {
                Some(t) => r@ == t,
                None => r@ == "0.0.0.0"@,
            },
    {
        match extract_text(&self.remote_addr) {
            Some(s) => s,
            None => String::from_str("0.0.0.0"),
        }
    }

    /// The remote IPv4 address as one number.
    pub fn remote_ip(&self) -> (r: u32)
        ensures
            r == self.remote_ip,
    {
        self.remote_ip
    }

    /// The remote port.
    pub fn remote_port(&self) -> (r: u16)
        ensures
            r == self.remote_port,
    {
        self.remote_port
    }

    /// Whether the connection came in over SSL.
    pub fn is_ssl(&self) -> (r: bool)
        ensures
            r == self.is_ssl,
    {
        self.is_ssl
    }

    /// The remote IPv4 address split into its four octets, most significant
    /// first.
    pub fn remote_ip_octets(&self) -> (r: (u8, u8, u8, u8))
        ensures
            r.0 == (self.remote_ip >> 24) as u8,
            r.1 == (self.remote_ip >> 16) as u8,
            r.2 == (self.remote_ip >> 8) as u8,
            r.3 == self.remote_ip as u8,
    {
        let ip = self.remote_ip;
        (((ip >> 24) as u8), ((ip >> 16) as u8), ((ip >> 8) as u8), (ip as u8))
    }
}

/// Law: the four octets recompose the address they were split from.
pub proof fn lemma_octets_recompose(ip: u32)
    ensures
        (((ip >> 24) as u8) as u32) << 24 | (((ip >> 16) as u8) as u32) << 16 | (((ip >> 8) as u8)
            as u32) << 8 | ((ip as u8) as u32) == ip,
{
    assert((((ip >> 24) as u8) as u32) << 24 | (((ip >> 16) as u8) as u32) << 16 | (((ip >> 8)
        as u8) as u32) << 8 | ((ip as u8) as u32) == ip) by (bit_vector);
}

/// Request methods the facade recognizes.
#[derive(Clone, Copy, Debug, PartialEq, Eq, Structural)]
pub enum Method {
    Head,
    Get,
    Post,
    Put,
    Delete,
    Patch,
    Purge,
    Connect,
    Options,
    Trace,
}

/// The method named by request-line text, if any.
pub open spec fn spec_method_of(s: Seq<char>) -> Option<Method> {
    if s == "HEAD"@ {
        Some(Method::Head)
    } else if s == "GET"@ {
        Some(Method::Get)
    } else if s == "POST"@ {
        Some(Method::Post)
    } else if s == "PUT"@ {
        Some(Method::Put)
    } else if s == "DELETE"@ {
        Some(Method::Delete)
    } else if s == "PATCH"@ {
        Some(Method::Patch)
    } else if s == "PURGE"@ {
        Some(Method::Purge)
    } else if s == "CONNECT"@ {
        Some(Method::Connect)
    } else if s == "OPTIONS"@ {
        Some(Method::Options)
    } else if s == "TRACE"@ {
        Some(Method::Trace)
    } else {
        None
    }
}

/// Exact text equality of two strings.
fn str_eq(a: &str, b: &str) -> (r: bool)
    ensures
        r == (a@ == b@),
{
    let alen = a.unicode_len();
    let blen = b.unicode_len();
    if alen != blen {
        return false;
    }
    let mut i: usize = 0;
    while i < alen
        invariant
            0 <= i <= alen,
            alen == a@.len(),
            alen == b@.len(),
            forall|j: int| 0 <= j < i ==> a@[j] == b@[j],
        decreases alen - i,
    {
        if a.get_char(i) != b.get_char(i) {
            return false;
        }
        i = i + 1;
    }
    proof {
        assert(a@ =~= b@);
    }
    true
}

/// Parses request-method text; text outside the closed set is rejected.
pub fn parse_method(s: &str) -> (r: Option<Method>)
    ensures
        r == spec_method_of(s@),
{
    if str_eq(s, "HEAD") {
        Some(Method::Head)
    } else if str_eq(s, "GET") {
        Some(Method::Get)
    } else if str_eq(s, "POST") {
        Some(Method::Post)
    } else if str_eq(s, "PUT") {
        Some(Method::Put)
    } else if str_eq(s, "DELETE") {
        Some(Method::Delete)
    } else if str_eq(s, "PATCH") {
        Some(Method::Patch)
    } else if str_eq(s, "PURGE") {
        Some(Method::Purge)
    } else if str_eq(s, "CONNECT") {
        Some(Method::Connect)
    } else if str_eq(s, "OPTIONS") {
        Some(Method::Options)
    } else if str_eq(s, "TRACE") {
        Some(Method::Trace)
    } else {
        None
    }
}

/// An HTTP protocol version.
#[derive(Clone, Copy, Debug, PartialEq, Eq, Structural)]
pub struct HttpVersion {
    pub major: u32,
    pub minor: u32,
}

/// The version the facade reports for given version text: "1.0" maps to
/// 1.0; any other present text is treated as 1.1, the engine speaking only
/// HTTP/1.x; absent text maps to nothing.
pub open spec fn spec_version_of(v: Option<Seq<char>>) -> Option<HttpVersion> {
    match v {
        None => None,
        Some(t) => if t == "1.0"@ {
            Some(HttpVersion { major: 1, minor: 0 })
        } else {
            Some(HttpVersion { major: 1, minor: 1 })
        },
    }
}

/// The scheme of a connection.
#[derive(Clone, Copy, Debug, PartialEq, Eq, Structural)]
pub enum Scheme {
    Http,
    Https,
}

/// Read-only view of one request, presented to application code: the
/// snapshot's fields plus lookup and enumeration over its header table.
pub struct Request {
    pub info: RequestInfo,
}

impl Request {
    /// Looks a header up by name, ASCII case-insensitively.
    pub fn get_header(&self, string: &str) -> (r: Option<String>)
        ensures
            r.deep_view() == spec_find(table_entries(self.info.headers@), string@),
    {
        Headers::over(&self.info.headers).find(string)
    }

    /// How many headers the request carries.
    pub fn count_headers(&self) -> (n: usize)
        ensures
            n as int == table_entries(self.info.headers@).len(),
    {
        Headers::over(&self.info.headers).all().len()
    }

    /// The header table as a lookup/enumeration view.
    pub fn headers(&self) -> (h: Headers<'_>)
        ensures
            h.spec_table() == self.info.headers@,
    {
        Headers::over(&self.info.headers)
    }

    /// The request method text.
    pub fn method(&self) -> (r: Option<String>)
        ensures
            r.deep_view() == spec_extract(self.info.request_method),
    {
        self.info.method()
    }

    /// The request method, parsed against the closed method set.
    pub fn method_kind(&self) -> (r: Option<Method>)
        ensures
            r == match spec_extract(self.info.request_method) {
                Some(t) => spec_method_of(t),
                None => None::<Method>,
            },
    {
        match self.info.method() {
            Some(s) => parse_method(s.as_str()),
            None => None,
        }
    }

    /// The request URI.
    pub fn url(&self) -> (r: Option<String>)
        ensures
            r.deep_view() == spec_extract(self.info.uri),
    {
        self.info.url()
    }

    /// The protocol version text.
    pub fn http_version(&self) -> (r: Option<String>)
        ensures
            r.deep_view() == spec_extract(self.info.http_version),
    {
        self.info.http_version()
    }

    /// The protocol version, "1.0" or "1.1".
    pub fn version(&self) -> (r: Option<HttpVersion>)
        ensures
            r == spec_version_of(spec_extract(self.info.http_version)),
    {
        match self.info.http_version() {
            None => None,
            Some(s) => {
                if str_eq(s.as_str(), "1.0") {
                    Some(HttpVersion { major: 1, minor: 0 })
                } else {
                    Some(HttpVersion { major: 1, minor: 1 })
                }
            },
        }
    }

    /// The query string, absent when the request had none.
    pub fn query_string(&self) -> (r: Option<String>)
        ensures
            r.deep_view() == spec_extract(self.info.query_string),
    {
        self.info.query_string()
    }

    /// The authenticated remote user, if the engine knows one.
    pub fn remote_user(&self) -> (r: Option<String>)
        ensures
            r.deep_view() == spec_extract(self.info.remote_user),
    {
        self.info.remote_user()
    }

    /// The remote IPv4 address as one number.
    pub fn remote_ip(&self) -> (r: u32)
        ensures
            r == self.info.remote_ip,
    {
        self.info.remote_ip()
    }

    /// Whether the connection came in over SSL.
    pub fn is_ssl(&self) -> (r: bool)
        ensures
            r == self.info.is_ssl,
    {
        self.info.is_ssl()
    }

    /// The scheme, decided by the SSL flag.
    pub fn scheme(&self) -> (r: Scheme)
        ensures
            r == if self.info.is_ssl {
                Scheme::Https
            } else {
                Scheme::Http
            },
    {
        if self.info.is_ssl() {
            Scheme::Https
        } else {
            Scheme::Http
        }
    }

    /// The Content-Length header parsed as a number: absent when the header
    /// is missing or not wholly numeric, or when its value does not fit.
    pub fn content_length(&self) -> (r: Option<u64>)
        ensures
            r == spec_content_length(self.info.headers@),
    {
        match self.get_header("Content-Length") {
            None => None,
            Some(s) => parse_u64(s.as_str()),
        }
    }
}

/// Index of the first '.' at or after `from`, or the length when there is
/// none.
pub open spec fn dot_after(s: Seq<char>, from: int) -> int
    decreases s.len() - from,
{
    if from < 0 || from >= s.len() {
        s.len() as int
    } else if s[from] == '.' {
        from
    } else {
        dot_after(s, from + 1)
    }
}

proof fn lemma_dot_after(s: Seq<char>, from: int)
    requires
        0 <= from <= s.len(),
    ensures
        from <= dot_after(s, from) <= s.len(),
        forall|i: int| from <= i < dot_after(s, from) ==> s[i] != '.',
        dot_after(s, from) < s.len() ==> s[dot_after(s, from)] == '.',
    decreases s.len() - from,
{
    if from < s.len() && s[from] != '.' {
        lemma_dot_after(s, from + 1);
    }
}

proof fn lemma_dot_after_is(s: Seq<char>, from: int, k: int)
    requires
        0 <= from <= k <= s.len(),
        forall|i: int| from <= i < k ==> s[i] != '.',
        k < s.len() ==> s[k] == '.',
    ensures
        dot_after(s, from) == k,
{
    lemma_dot_after(s, from);
}

fn dot_from(s: &str, from: usize) -> (r: usize)
    requires
        from <= s@.len(),
    ensures
        r as int == dot_after(s@, from as int),
        from <= r <= s@.len(),
{
    let len = s.unicode_len();
    let mut i: usize = from;
    while i < len
        invariant
            from <= i <= len,
            len == s@.len(),
            forall|j: int| from <= j < i ==> s@[j] != '.',
        decreases len - i,
    {
        if s.get_char(i) == '.' {
            proof {
                lemma_dot_after_is(s@, from as int, i as int);
            }
            return i;
        }
        i = i + 1;
    }
    proof {
        lemma_dot_after_is(s@, from as int, i as int);
    }
    i
}

/// A decimal octet of a dotted quad: a nonempty digit run valued at most
/// 255 (leading zeros accepted, as the engine prints none).
pub open spec fn octet_ok(p: Seq<char>) -> bool {
    p.len() > 0 && all_digits(p) && dec_value(p) <= 255
}

/// The address a printable dotted quad "a.b.c.d" denotes, most significant
/// octet first; text of any other shape denotes none.
pub open spec fn spec_ipv4(s: Seq<char>) -> Option<u32> {
    let i1 = dot_after(s, 0);
    let i2 = dot_after(s, i1 + 1);
    let i3 = dot_after(s, i2 + 1);
    if i3 >= s.len() {
        None
    } else {
        let p0 = s.subrange(0, i1);
        let p1 = s.subrange(i1 + 1, i2);
        let p2 = s.subrange(i2 + 1, i3);
        let p3 = s.subrange(i3 + 1, s.len() as int);
        if octet_ok(p0) && octet_ok(p1) && octet_ok(p2) && octet_ok(p3) {
            Some(
                (dec_value(p0) * 0x1000000 + dec_value(p1) * 0x10000 + dec_value(p2) * 0x100
                    + dec_value(p3)) as u32,
            )
        } else {
            None
        }
    }
}

/// Parses a printable IPv4 address "a.b.c.d" into its numeric form; the
/// engine reports the remote address in this printable form only.
pub fn parse_ipv4(s: &str) -> (r: Option<u32>)
    ensures
        r == spec_ipv4(s@),
{
    let len = s.unicode_len();
    let i1 = dot_from(s, 0);
    if i1 >= len {
        return None;
    }
    let i2 = dot_from(s, i1 + 1);
    if i2 >= len {
        return None;
    }
    let i3 = dot_from(s, i2 + 1);
    if i3 >= len {
        return None;
    }
    let p0 = s.substring_char(0, i1);
    let p1 = s.substring_char(i1 + 1, i2);
    let p2 = s.substring_char(i2 + 1, i3);
    let p3 = s.substring_char(i3 + 1, len);
    let a = match parse_u64(p0) {
        Some(v) => v,
        None => {
            return None;
        },
    };
    let b = match parse_u64(p1) {
        Some(v) => v,
        None => {
            return None;
        },
    };
    let c = match parse_u64(p2) {
        Some(v) => v,
        None => {
            return None;
        },
    };
    let d = match parse_u64(p3) {
        Some(v) => v,
        None => {
            return None;
        },
    };
    if a > 255 || b > 255 || c > 255 || d > 255 {
        return None;
    }
    Some((a * 16777216 + b * 65536 + c * 256 + d) as u32)
}

/// What the Content-Length header of a header table parses to.
pub open spec fn spec_content_length(t: Seq<Header>) -> Option<u64> {
    match spec_find(table_entries(t), "Content-Length"@) {
        None => None,
        Some(v) => if v.len() > 0 && all_digits(v) && dec_value(v) <= u64::MAX {
            Some(dec_value(v) as u64)
        } else {
            None
        },
    }
}

} // verus!
