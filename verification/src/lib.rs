//! Adapter core for an embedded native HTTP engine.
//!
//! The engine itself (socket acceptance, TLS, connection threading, protocol
//! framing) is an external collaborator reached over FFI by the surrounding
//! binary.  This crate holds the per-request programming surface that sits
//! between the engine and application code, stated over plain values so that
//! every rule in it is verified:
//!
//! * extraction of text from the engine's nul-terminated, possibly absent
//!   buffers ([`extract`]);
//! * iteration and lookup over the engine's fixed-capacity header table
//!   ([`headers`]);
//! * a read-only request facade combining the request snapshot with the
//!   header table ([`request`]);
//! * response data and its serialization into HTTP wire framing
//!   ([`response`]);
//! * the per-request dispatch decisions, including the synthetic failure
//!   response owed whenever a handler produced nothing ([`dispatch`]);
//! * a closed status-code taxonomy with banded classification ([`status`]);
//! * engine configuration and its serialization into the engine's option
//!   list ([`config`]).

pub mod config;
pub mod dispatch;
pub mod extract;
pub mod headers;
pub mod numtext;
pub mod request;
pub mod response;
pub mod status;

pub use config::Config;
pub use response::{response, Response};
pub use status::{Band, StatusCode, ToStatusCode};
