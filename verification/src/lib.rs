//! Component detection for photographs of electronic circuits.
//!
//! The crate holds the decisions of the detection service: where a prompt
//! lives, when construction fails, what is bound into a backend request and
//! how the backend's answer becomes the caller's result. Reading files and
//! waiting for the network are left to the caller.

pub mod component_detection;
pub mod error;
pub mod utils;

use vstd::prelude::*;

verus! {

/// The text served at the root route.
pub open spec fn greeting() -> Seq<char> {
    "Hello, world!"@
}

/// Handler of the root route: a fixed greeting.
pub fn index() -> (body: &'static str)
    ensures
        body@ == greeting(),
{
    "Hello, world!"
}

} // verus!
