//! The text that the bridge hands to the host.

use vstd::prelude::*;

verus! {

/// The greeting, as a sequence of characters.
pub open spec fn greeting_text() -> Seq<char> {
    "Hello from Rust"@
}

/// The greeting. It is the same text on every call.
pub fn greeting() -> (text: &'static str)
    ensures
        text@ == greeting_text(),
        text.is_ascii(),
{
    proof {
        reveal_strlit("Hello from Rust");
    }
    "Hello from Rust"
}

} // verus!
