//! The response bodies of the routing demo. The routes themselves are
//! the HTTP boundary's business; the texts they answer with are pinned
//! here.

use vstd::prelude::*;
use vstd::string::StringExecFns;

verus! {

/// The body answered on the root route.
pub fn hello_body() -> (r: &'static str)
    ensures
        r@ == "Hello world!"@,
{
    "Hello world!"
}

/// The body answered on the echo route: the request body wrapped in a
/// greeting.
pub fn echo_body(input: &str) -> (r: String)
    ensures
        r@ == "Hello "@ + input@ + "!"@,
{
    let greeting = String::from_str("Hello ");
    greeting.concat(input).concat("!")
}

/// The body answered on the manually routed path.
pub fn manual_hello_body() -> (r: &'static str)
    ensures
        r@ == "Hey there!"@,
{
    "Hey there!"
}

} // verus!
