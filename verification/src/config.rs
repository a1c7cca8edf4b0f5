//! The resolved run configuration and its validity rules.
//!
//! Option parsing happens at the process edge; this crate consumes only the
//! resolved record: how many connections to open, how many requests to keep
//! in flight on each, how many requests each connection must issue in total,
//! which request shape to send, and the server port.

use vstd::prelude::*;
use vstd::string::StringExecFns;

use crate::request::RequestOption;

verus! {

/// A configuration problem found at startup, before any request is issued.
#[derive(Clone, Copy, PartialEq, Eq, Structural, Debug)]
pub enum ConfigError {
    /// The request-variant selector names neither of the two variants.
    InvalidRequestOption,
}

impl ConfigError {
    /// A human-readable description of the error.
    pub fn message(&self) -> (r: String)
        ensures
            r@ == "allowed options: Empty, Something"@,
    {
        String::from_str("allowed options: Empty, Something")
    }
}

/// The resolved configuration of one run, immutable once built.
#[derive(Clone, Copy, PartialEq, Eq, Structural, Debug)]
pub struct Config {
    /// Number of parallel client connections.
    pub connections: usize,
    /// Number of parallel requests per connection.
    pub concurrency: usize,
    /// Number of requests sent on every connection.
    pub messages: usize,
    /// Which request shape to send.
    pub request: RequestOption,
    /// Port where the server is running.
    pub port: u32,
}

impl Config {
    /// A valid configuration has at least one connection, at least one
    /// request in flight, and at least one request to send per connection.
    pub open spec fn valid(self) -> bool {
        &&& 1 <= self.connections
        &&& 1 <= self.concurrency
        &&& 1 <= self.messages
    }

    /// Check validity of the resolved record.
    pub fn is_valid(&self) -> (r: bool)
        ensures
            r == self.valid(),
    {
        1 <= self.connections && 1 <= self.concurrency && 1 <= self.messages
    }
}

impl Default for Config {
    /// The defaults the command line starts from: one connection, ten
    /// requests in flight, ten thousand requests, the empty request shape,
    /// the server's fixed local port.
    fn default() -> (c: Config)
        ensures
            c.connections == 1,
            c.concurrency == 10,
            c.messages == 10000,
            c.request == RequestOption::Empty,
            c.port == 50051,
            c.valid(),
    {
        Config {
            connections: 1,
            concurrency: 10,
            messages: 10000,
            request: RequestOption::Empty,
            port: 50051,
        }
    }
}

} // verus!
