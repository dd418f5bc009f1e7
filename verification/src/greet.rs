//! The greeting operation: pure interpolation of a caller-supplied name into
//! a fixed template. It has no failure mode, and its result is a function of
//! the name alone.

use vstd::prelude::*;

verus! {

/// The greeting built for `name`: the fixed prefix, the name verbatim, and
/// the fixed suffix.
pub open spec fn greet_spec(name: Seq<char>) -> Seq<char> {
    "Hello, "@ + name + "! You've been greeted from Rust!"@
}

/// Format the greeting for `name`. The result is determined by `name`
/// alone: the same name always yields the same greeting.
pub fn greet(name: &str) -> (r: String)
    ensures
        r@ == greet_spec(name@),
{
    let mut s = String::from_str("Hello, ");
    s.append(name);
    s.append("! You've been greeted from Rust!");
    proof {
        assert(s@ =~= greet_spec(name@));
    }
    s
}

/// The greeting contains the name verbatim: the characters right after the
/// fixed prefix are exactly the name, and the greeting is as long as the
/// name plus the two fixed pieces.
pub proof fn lemma_greet_contains_name(name: Seq<char>)
    ensures
        greet_spec(name).len() == "Hello, "@.len() + name.len()
            + "! You've been greeted from Rust!"@.len(),
        greet_spec(name).subrange(
            "Hello, "@.len() as int,
            "Hello, "@.len() as int + name.len() as int,
        ) == name,
{
    assert(greet_spec(name).subrange(
        "Hello, "@.len() as int,
        "Hello, "@.len() as int + name.len() as int,
    ) =~= name);
}

} // verus!
