//! The handler that answers JSON-RPC messages given as text.

use vstd::prelude::*;
use crate::methods::{HandlerFn, Methods, option_text};

verus! {

/// Registers methods and answers messages with them.
pub struct JsonRpc<H> {
    methods: Methods<H>,
}

impl<H: HandlerFn> JsonRpc<H> {
    /// The registry of the methods.
    pub closed spec fn methods(&self) -> Methods<H> {
        self.methods
    }

    /// A handler without methods.
    pub fn new() -> (out: Self)
        ensures
            forall|name: Seq<char>| !out.methods().registered(name),
    {
        JsonRpc { methods: Methods::new() }
    }

    /// Registers `handler` under the name `method`. A later registration
    /// under the same name takes the place of an earlier one.
    pub fn add(self, method: &str, handler: H) -> (out: Self)
        ensures
            out.methods().entries() == self.methods().entries().push((method@, handler)),
            out.methods().handler_for(method@) == Some(handler),
            forall|name: Seq<char>|
                name != method@ ==> out.methods().handler_for(name) == self.methods().handler_for(
                    name,
                ),
    {
        JsonRpc { methods: self.methods.add(method, handler) }
    }

    /// Processes one inbound message and returns the text to send back, if
    /// any: nothing for a notification, for a response and for a batch that
    /// is owed no response.
    pub fn call(&self, json_str: &str) -> (out: Option<String>)
        ensures
            self.methods().emits_for(json_str@, option_text(out)),
    {
        self.methods.process_message(json_str)
    }
}

} // verus!
