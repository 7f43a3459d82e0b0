//! Engine configuration and its serialization into the engine's option
//! list.

use vstd::prelude::*;
use crate::numtext::{dec_digits, fmt_u64};

verus! {

/// User-supplied engine options.  Only options explicitly set are
/// serialized; unset options are omitted so that the engine supplies its own
/// defaults.
pub struct Config {
    port: Option<u16>,
    threads: Option<u32>,
    enable_keep_alive: Option<bool>,
}

impl Config {
    /// The configured listening port, if set.
    pub closed spec fn spec_port(&self) -> Option<u16> {
        self.port
    }

    /// The configured worker-thread count, if set.
    pub closed spec fn spec_threads(&self) -> Option<u32> {
        self.threads
    }

    /// The configured keep-alive choice, if set.
    pub closed spec fn spec_keep_alive(&self) -> Option<bool> {
        self.enable_keep_alive
    }

    /// An empty configuration with no option set.
    pub fn new() -> (c: Config)
        ensures
            c.spec_port() is None,
            c.spec_threads() is None,
            c.spec_keep_alive() is None,
    {
        Config { port: None, threads: None, enable_keep_alive: None }
    }

    /// A configuration for casual use: port 8888 and 50 worker threads,
    /// keep-alive left to the engine.
    pub fn default() -> (c: Config)
        ensures
            c.spec_port() == Some(8888u16),
            c.spec_threads() == Some(50u32),
            c.spec_keep_alive() is None,
    {
        Config { port: Some(8888), threads: Some(50), enable_keep_alive: None }
    }

    /// Sets the listening port.
    pub fn port(&mut self, port: u16)
        ensures
            final(self).spec_port() == Some(port),
            final(self).spec_threads() == old(self).spec_threads(),
            final(self).spec_keep_alive() == old(self).spec_keep_alive(),
    {
        self.port = Some(port);
    }

    /// Sets the worker-thread count.
    pub fn threads(&mut self, threads: u32)
        ensures
            final(self).spec_port() == old(self).spec_port(),
            final(self).spec_threads() == Some(threads),
            final(self).spec_keep_alive() == old(self).spec_keep_alive(),
    {
        self.threads = Some(threads);
    }

    /// Sets the keep-alive choice.
    pub fn keep_alive(&mut self, keep_alive: bool)
        ensures
            final(self).spec_port() == old(self).spec_port(),
            final(self).spec_threads() == old(self).spec_threads(),
            final(self).spec_keep_alive() == Some(keep_alive),
    {
        self.enable_keep_alive = Some(keep_alive);
    }
}

/// The option list a configuration serializes to: alternating
/// option-name/option-value entries, in the fixed order port, threads,
/// keep-alive, with unset options omitted entirely.
pub open spec fn spec_options(c: Config) -> Seq<Seq<char>> {
    (match c.spec_port() {
        Some(p) => seq!["listening_ports"@, dec_digits(p as int)],
        None => Seq::<Seq<char>>::empty(),
    }) + (match c.spec_threads() {
        Some(t) => seq!["num_threads"@, dec_digits(t as int)],
        None => Seq::<Seq<char>>::empty(),
    }) + (match c.spec_keep_alive() {
        Some(b) => seq!["enable_keep_alive"@, if b { "yes"@ } else { "no"@ }],
        None => Seq::<Seq<char>>::empty(),
    })
}

/// Serializes a configuration into the engine's flat option list.  The FFI
/// layer appends the engine's terminating null entry when handing the list
/// over; it is not part of the text.
pub fn config_to_options(config: &Config) -> (r: Vec<String>)
    ensures
        r.deep_view() == spec_options(*config),
{
    let mut r: Vec<String> = Vec::new();
    if let Some(p) = config.port {
        r.push(String::from_str("listening_ports"));
        r.push(fmt_u64(p as u64));
    }
    if let Some(t) = config.threads {
        r.push(String::from_str("num_threads"));
        r.push(fmt_u64(t as u64));
    }
    if let Some(b) = config.enable_keep_alive {
        r.push(String::from_str("enable_keep_alive"));
        r.push(if b {
            String::from_str("yes")
        } else {
            String::from_str("no")
        });
    }
    proof {
        assert(r.deep_view() =~~= spec_options(*config));
    }
    r
}

} // verus!
