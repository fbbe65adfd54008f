//! The greeting service.
use vstd::prelude::*;

verus! {

/// The greeting service.
pub struct MyGreeter {}

impl Default for MyGreeter {
    fn default() -> (g: MyGreeter)
        ensures
            g == (MyGreeter {}),
    {
        MyGreeter {}
    }
}

/// The reply to a request from `name`.
pub open spec fn spec_greeting(name: Seq<char>) -> Seq<char> {
    "Hello 456  "@ + name + "!"@
}

impl MyGreeter {
    /// The reply message to a greeting request from `name`.
    pub fn say_hello(&self, name: &str) -> (message: String)
        ensures
            message@ == spec_greeting(name@),
    {
        let mut message = String::from_str("Hello 456  ");
        message.append(name);
        message.append("!");
        message
    }
}

} // verus!
