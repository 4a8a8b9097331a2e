use vstd::prelude::*;

verus! {

/// The greeting returned to the window content for `name`.
pub fn greet(name: &str) -> (r: String)
    ensures
        r@ == "Hello, "@ + name@ + "! You've been greeted from Rust!"@,
{
    let mut out = String::from_str("Hello, ");
    out.append(name);
    out.append("! You've been greeted from Rust!");
    out
}

} // verus!
