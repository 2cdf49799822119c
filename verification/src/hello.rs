//! The greeting that the one route of the web service answers with.

use vstd::prelude::*;
use vstd::string::*;

verus! {

/// The greeting for somebody of the given name, as a text.
pub open spec fn greeting_of(name: Seq<char>) -> Seq<char> {
    "Hello, "@ + name + "!"@
}

/// Greets `name`.
pub fn greeting(name: &str) -> (body: String)
    ensures
        body@ == greeting_of(name@),
{
    let mut body = String::from_str("Hello, ");
    body.append(name);
    body.append("!");
    body
}

} // verus!
