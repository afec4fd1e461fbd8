//! The slots of the evaluation array.

use vstd::prelude::*;

verus! {

pub const WIN: usize = 0;

pub const WIN_GAMMON: usize = 1;

pub const WIN_BACKGAMMON: usize = 2;

pub const LOSE_GAMMON: usize = 3;

pub const LOSE_BACKGAMMON: usize = 4;

pub const CUBELESS: usize = 5;

pub const CUBEFUL: usize = 6;

} // verus!
