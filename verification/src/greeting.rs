//! The greeting formatter: a pure, total function over strings.

use vstd::prelude::*;

verus! {

/// The greeting for `name`: the fixed prefix, the name verbatim, and the
/// fixed suffix, concatenated.
pub open spec fn spec_greet(name: Seq<char>) -> Seq<char> {
    "Hello, "@ + name + "! You've been greeted from Rust!"@
}

/// Formats the greeting for `name`. Deterministic, total over all strings,
/// and free of side effects: the result is exactly the prefix, the name,
/// and the suffix.
pub fn greet(name: &str) -> (r: String)
    ensures
        r@ == spec_greet(name@),
{
    let mut s = String::from_str("Hello, ");
    s.append(name);
    s.append("! You've been greeted from Rust!");
    s
}

} // verus!
