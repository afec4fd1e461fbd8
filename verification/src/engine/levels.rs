//! The identifiers of the levels.

use vstd::prelude::*;

verus! {

pub const PLY_0: &'static str = "0ply";

pub const PLY_1: &'static str = "1ply";

pub const PLY_2: &'static str = "2ply";

pub const PLY_3: &'static str = "3ply";

pub const PLY_4: &'static str = "4ply";

pub const ROLLOUT: &'static str = "rollout";

} // verus!
