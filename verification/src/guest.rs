//! The greeter: the two functions that the `greetable` interface exports.

use vstd::prelude::*;
use vstd::string::*;

verus! {

/// The implementation behind the `greetable` interface.
pub struct Greeter;

impl Greeter {
    /// What the greeter says to `name`.
    pub open spec fn greeting(name: Seq<char>) -> Seq<char> {
        "Hello, "@ + name
    }

    /// The greeter's own name: the same text on every call.
    pub fn name() -> (text: String)
        ensures
            text@ == "Wasm Component"@,
    {
        String::from_str("Wasm Component")
    }

    /// Greets `name`. The text depends on the argument alone, so nothing of
    /// an earlier call can show in a later one.
    pub fn greet(name: String) -> (text: String)
        ensures
            text@ == Self::greeting(name@),
    {
        String::from_str("Hello, ").concat(name.as_str())
    }
}

} // verus!
