//! The greeting shown when the user introduces themselves.

use vstd::prelude::*;
use vstd::string::*;

verus! {

/// The greeting for `name`: the name between a fixed opening and a fixed
/// closing, with nothing trimmed or escaped.
pub open spec fn greeting(name: Seq<char>) -> Seq<char> {
    "Hello, "@ + name + "! You've been greeted from Rust!"@
}

/// Greets `name`.
pub fn greet(name: &str) -> (text: String)
    ensures
        text@ == greeting(name@),
{
    let mut text = String::from_str("Hello, ");
    text.append(name);
    text.append("! You've been greeted from Rust!");
    text
}

} // verus!
