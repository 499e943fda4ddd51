use vstd::prelude::*;

pub mod content_type;
pub mod outcome;
pub mod request;
pub mod resolve;
pub mod response;
pub mod text;

verus! {

/// Consumes a string and drops it.
pub fn take(s: String) {
}

} // verus!
