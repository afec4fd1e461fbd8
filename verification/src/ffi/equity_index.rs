//! The slots of a cube decision's equities.

use vstd::prelude::*;

verus! {

pub const NODOUBLE: usize = 1;

pub const TAKE: usize = 2;

pub const DROP: usize = 3;

} // verus!
