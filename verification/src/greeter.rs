//! The echo collaborator's reply rules.
//!
//! The server answers both operations unconditionally and immediately, with
//! no state: the empty operation echoes an empty payload, the textual
//! operation answers with a fixed reply text. The transport plumbing around
//! these rules lives outside this crate.

use vstd::prelude::*;
use vstd::string::StringExecFns;

use crate::request::{Empty, Something};

verus! {

/// The echo service: answers every request, keeps no state.
pub struct MyGreeter {}

impl Default for MyGreeter {
    fn default() -> (g: MyGreeter)
        ensures
            g == (MyGreeter {  }),
    {
        MyGreeter {}
    }
}

impl MyGreeter {
    /// Answer the empty operation: an empty reply, always.
    pub fn say_empty(&self, _request: &Empty) -> (reply: Empty)
        ensures
            reply == (Empty {  }),
    {
        Empty {}
    }

    /// Answer the textual operation: the fixed reply text, always,
    /// whatever the request said.
    pub fn say_something(&self, _request: &Something) -> (reply: Something)
        ensures
            reply.text@ == "some reply string"@,
    {
        Something { text: String::from_str("some reply string") }
    }
}

} // verus!
