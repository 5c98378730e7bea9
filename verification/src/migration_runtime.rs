//! Identity of the in-process media-graph runtime.

use vstd::prelude::*;

verus! {

/// The name under which the media-graph runtime identifies itself.
pub const CRATE_NAME: &'static str = "migration-runtime";

} // verus!
