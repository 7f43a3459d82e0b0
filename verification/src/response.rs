//! Response data and its serialization into HTTP wire framing: status
//! line, header block, blank line, body, in one linear pass, so header
//! bytes always precede body bytes by construction.

use vstd::prelude::*;
use vstd::utf8::encode_utf8;
use crate::numtext::{dec_digits, fmt_u64};
use crate::status::{spec_code, spec_reason, StatusCode, ToStatusCode};

verus! {

/// An application-produced response: numeric status with its reason
/// phrase, an ordered, case-preserving header multimap, and the body
/// bytes.  Consumed exactly once per request by the dispatch shim.
pub struct Response {
    pub status: (u16, &'static str),
    pub headers: Vec<(String, Vec<String>)>,
    pub body: Vec<u8>,
}

/// Builds a response from anything that converts to a status.  The status
/// must convert: a numeric code outside 100-599 is a construction error the
/// caller holds.
pub fn response<S: ToStatusCode>(
    status: S,
    headers: Vec<(String, Vec<String>)>,
    body: Vec<u8>,
) -> (r: Response)
    requires
        status.to_status_spec() is Ok,
    ensures
        status.to_status_spec() matches Ok(s) ==> r.status.0 as int == spec_code(s)
            && r.status.1@ == spec_reason(s),
        r.headers == headers,
        r.body == body,
{
    let code: (u16, &'static str) = match status.to_status() {
        Ok(s) => s.to_code(),
        Err(_) => {
            proof {
                assert(false);
            }
            (0, "")
        },
    };
    Response { status: code, headers, body }
}

/// The status line of a response.
pub open spec fn spec_status_line(code: int, reason: Seq<char>) -> Seq<char> {
    "HTTP/1.1 "@ + dec_digits(code) + " "@ + reason + "\r\n"@
}

/// The lines one header contributes: one "name: value" line per value, in
/// order.
pub open spec fn spec_header_lines(name: Seq<char>, vals: Seq<Seq<char>>) -> Seq<char>
    decreases vals.len(),
{
    if vals.len() == 0 {
        Seq::<char>::empty()
    } else {
        spec_header_lines(name, vals.drop_last()) + name + ": "@ + vals.last() + "\r\n"@
    }
}

/// The header block: each header's lines, in map order.
pub open spec fn spec_header_block(headers: Seq<(Seq<char>, Seq<Seq<char>>)>) -> Seq<char>
    decreases headers.len(),
{
    if headers.len() == 0 {
        Seq::<char>::empty()
    } else {
        spec_header_block(headers.drop_last()) + spec_header_lines(
            headers.last().0,
            headers.last().1,
        )
    }
}

/// Everything serialized before the body: status line, header block, blank
/// line.
pub open spec fn spec_head(r: Response) -> Seq<char> {
    spec_status_line(r.status.0 as int, r.status.1@) + spec_header_block(r.headers.deep_view())
        + "\r\n"@
}

/// The full serialized response: the head's UTF-8 bytes, then the body
/// bytes verbatim.
pub open spec fn spec_serialized(r: Response) -> Seq<u8> {
    encode_utf8(spec_head(r)) + r.body@
}

/// Serializes the head of a response.
pub fn write_head(r: &Response) -> (s: String)
    ensures
        s@ == spec_head(*r),
{
    let ghost hs = r.headers.deep_view();
    let mut s = String::from_str("HTTP/1.1 ");
    let code = fmt_u64(r.status.0 as u64);
    s.append(code.as_str());
    s.append(" ");
    s.append(r.status.1);
    s.append("\r\n");
    proof {
        assert(s@ =~= spec_status_line(r.status.0 as int, r.status.1@));
    }
    let mut i: usize = 0;
    while i < r.headers.len()
        invariant
            hs == r.headers.deep_view(),
            hs.len() == r.headers.len(),
            0 <= i <= r.headers.len(),
            s@ == spec_status_line(r.status.0 as int, r.status.1@) + spec_header_block(
                hs.take(i as int),
            ),
        decreases r.headers.len() - i,
    {
        let pair = &r.headers[i];
        let ghost name = hs[i as int].0;
        let ghost vals = hs[i as int].1;
        let mut j: usize = 0;
        while j < pair.1.len()
            invariant
                hs == r.headers.deep_view(),
                hs.len() == r.headers.len(),
                0 <= i < r.headers.len(),
                pair == &r.headers[i as int],
                name == hs[i as int].0,
                vals == hs[i as int].1,
                name == pair.0@,
                vals.len() == pair.1.len(),
                forall|k: int| 0 <= k < vals.len() ==> vals[k] == pair.1[k]@,
                0 <= j <= pair.1.len(),
                s@ == spec_status_line(r.status.0 as int, r.status.1@) + spec_header_block(
                    hs.take(i as int),
                ) + spec_header_lines(name, vals.take(j as int)),
            decreases pair.1.len() - j,
        {
            s.append(pair.0.as_str());
            s.append(": ");
            s.append(pair.1[j].as_str());
            s.append("\r\n");
            proof {
                assert(vals.take(j as int + 1).drop_last() =~= vals.take(j as int));
                assert(vals.take(j as int + 1).last() == vals[j as int]);
                assert(s@ =~= spec_status_line(r.status.0 as int, r.status.1@)
                    + spec_header_block(hs.take(i as int)) + spec_header_lines(
                    name,
                    vals.take(j as int + 1),
                ));
            }
            j = j + 1;
        }
        proof {
            assert(vals.take(vals.len() as int) =~= vals);
            assert(hs.take(i as int + 1).drop_last() =~= hs.take(i as int));
            assert(hs.take(i as int + 1).last() == hs[i as int]);
        }
        i = i + 1;
    }
    s.append("\r\n");
    proof {
        assert(hs.take(hs.len() as int) =~= hs);
        assert(s@ =~= spec_head(*r));
    }
    s
}

/// Serializes a whole response: head, then body, in one pass.
pub fn serialize_response(r: &Response) -> (v: Vec<u8>)
    ensures
        v@ == spec_serialized(*r),
{
    let head = write_head(r);
    let mut v = head.as_str().as_bytes_vec();
    let mut i: usize = 0;
    while i < r.body.len()
        invariant
            0 <= i <= r.body.len(),
            v@ == encode_utf8(spec_head(*r)) + r.body@.take(i as int),
        decreases r.body.len() - i,
    {
        v.push(r.body[i]);
        proof {
            assert(r.body@.take(i as int + 1) =~= r.body@.take(i as int).push(r.body@[i as int]));
            assert(v@ =~= encode_utf8(spec_head(*r)) + r.body@.take(i as int + 1));
        }
        i = i + 1;
    }
    proof {
        assert(r.body@.take(r.body@.len() as int) =~= r.body@);
    }
    v
}

/// The synthetic failure line owed whenever a handler produced no response:
/// a lone 500 status line.
pub open spec fn spec_fallback_line() -> Seq<char> {
    "HTTP/1.1 500 Internal Server Error\n"@
}

/// Builds the synthetic failure line.
pub fn fallback_line() -> (s: String)
    ensures
        s@ == spec_fallback_line(),
{
    String::from_str("HTTP/1.1 500 Internal Server Error\n")
}

/// Law: the synthetic failure response is a single line: its one line
/// terminator stands at its end, so nothing further is ever framed with it.
pub proof fn lemma_fallback_single_line()
    ensures
        spec_fallback_line().len() == 35,
        spec_fallback_line().last() == '\n',
        forall|i: int| 0 <= i < 34 ==> spec_fallback_line()[i] != '\n',
{
    reveal_strlit("HTTP/1.1 500 Internal Server Error\n");
}

} // verus!
