//! The kinds of levels.

use vstd::prelude::*;

verus! {

pub const PLY: &'static str = "ply";

pub const ROLLOUT: &'static str = "rollout";

} // verus!
