//! Small commands.

use vstd::prelude::*;
use crate::actions::{plan_view, Step};
use crate::file_manager::{ensure_plan, ensure_steps};
use crate::text::concat3;

verus! {

/// The greeting for `name`.
pub open spec fn greeting(name: Seq<char>) -> Seq<char> {
    "Hello, "@ + name + "! You've been greeted from Rust!"@
}

/// Greets the front end.
pub fn greet(name: &str) -> (text: String)
    ensures
        text@ == greeting(name@),
{
    concat3("Hello, ", name, "! You've been greeted from Rust!")
}

/// Makes sure that the directory `path` exists. `exists` says whether it
/// is there already.
pub fn ensure_directory(path: &str, exists: bool) -> (plan: Vec<Step>)
    ensures
        plan_view(plan@) == ensure_plan(path@, exists, "Failed to create directory: "@),
{
    ensure_steps(path, exists, "Failed to create directory: ")
}

} // verus!
