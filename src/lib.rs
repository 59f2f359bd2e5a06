//! Decision logic of a desktop launcher that brings up a local model engine
//! and an application backend, installs the engine and its model on demand,
//! and stops the processes it started when the window closes.
pub mod installer;
pub mod probe;
pub mod slots;
pub mod status;
pub mod supervisor;

use vstd::prelude::*;
use vstd::string::*;

verus! {

pub open spec fn greeting(name: Seq<char>) -> Seq<char> {
    "Hello, "@ + name + "! Welcome to StudyCompanion!"@
}

/// Greets the user by name.
pub fn greet(name: &str) -> (r: String)
    ensures
        r@ == greeting(name@),
{
    let mut r = String::from_str("Hello, ");
    r.append(name);
    r.append("! Welcome to StudyCompanion!");
    r
}

} // verus!
