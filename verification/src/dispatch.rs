//! Per-request dispatch decisions.
//!
//! The engine invokes one registered callback per request, on an
//! engine-owned thread.  The FFI layer around this crate runs that callback
//! inside a recovery boundary so that no handler failure ever unwinds into
//! the native call frame; every decision the callback takes is a function
//! here, verified over plain values:
//!
//! * building the per-request state from the snapshot ([`Connection::new`]);
//! * what to write for a handler outcome ([`respond`]);
//! * the fallback failure line still owed at teardown when nothing was
//!   written ([`Connection::finalize`]);
//! * the code reported back to the engine ([`report_code`]).

use vstd::prelude::*;
use crate::request::{Request, RequestInfo};
use crate::response::{fallback_line, serialize_response, spec_fallback_line, spec_serialized, Response};

verus! {

/// Per-request state the dispatch shim tracks: the facade handed to the
/// handler, and whether response bytes have reached the connection yet.
pub struct Connection {
    pub request: Request,
    written: bool,
}

impl Connection {
    /// Whether response bytes have reached the connection.
    pub closed spec fn spec_written(&self) -> bool {
        self.written
    }

    /// The request facade this state carries.
    pub closed spec fn spec_request(&self) -> Request {
        self.request
    }

    /// Builds the per-request state from the engine's snapshot.  An
    /// unavailable snapshot is fatal for this request alone: the error is
    /// reported and no handler runs.
    pub fn new(info: Option<RequestInfo>) -> (r: Result<Connection, String>)
        ensures
            info matches Some(i) ==> (r matches Ok(c) && c.spec_request().info == i
                && !c.spec_written()),
            info is None ==> (r matches Err(m) && m@
                == "Couldn't get request info for connection"@),
    {
        match info {
            Some(i) => Ok(Connection { request: Request { info: i }, written: false }),
            None => Err(String::from_str("Couldn't get request info for connection")),
        }
    }

    /// Records that response bytes have reached the connection.
    pub fn note_written(&mut self)
        ensures
            final(self).spec_written(),
            final(self).spec_request() == old(self).spec_request(),
    {
        self.written = true;
    }

    /// Teardown duty, run exactly once when the request ends: yields the
    /// synthetic failure line still owed if and only if nothing was
    /// written, so every request is answered.
    pub fn finalize(self) -> (r: Option<String>)
        ensures
            r is Some <==> !self.spec_written(),
            r matches Some(s) ==> s@ == spec_fallback_line(),
    {
        if self.written {
            None
        } else {
            Some(fallback_line())
        }
    }
}

/// What a handler invocation came back with: a response to serialize, or an
/// application-level failure.
pub enum HandlerOutcome {
    Success(Response),
    Failure,
}

/// The bytes the shim sends for a handler outcome: the serialized response
/// on success, the synthetic failure line otherwise.
pub fn respond(outcome: HandlerOutcome) -> (out: Vec<u8>)
    ensures
        outcome matches HandlerOutcome::Success(r) ==> out@ == spec_serialized(r),
        outcome is Failure ==> out@ == vstd::utf8::encode_utf8(spec_fallback_line()),
{
    match outcome {
        HandlerOutcome::Success(r) => serialize_response(&r),
        HandlerOutcome::Failure => {
            let line = fallback_line();
            line.as_str().as_bytes_vec()
        },
    }
}

/// How one callback invocation ended, as the recovery boundary at the FFI
/// edge observes it: a normal return, or abnormal termination caught there.
pub enum Termination {
    Completed,
    Abnormal,
}

/// The code reported back to the engine for one invocation: one exactly on
/// a normal return, zero exactly on an abnormal termination, whatever else
/// happened during the request.
pub fn report_code(t: &Termination) -> (c: i32)
    ensures
        c == 1 <==> t is Completed,
        c == 0 <==> t is Abnormal,
{
    match t {
        Termination::Completed => 1,
        Termination::Abnormal => 0,
    }
}

} // verus!
