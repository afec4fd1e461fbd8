//! gnubg's cube decisions, by their numbers in the native interface.

use vstd::prelude::*;

verus! {

pub const DOUBLE_TAKE: i32 = 0;

pub const DOUBLE_PASS: i32 = 1;

pub const NODOUBLE_TAKE: i32 = 2;

pub const TOOGOOD_TAKE: i32 = 3;

pub const TOOGOOD_PASS: i32 = 4;

pub const DOUBLE_BEAVER: i32 = 5;

pub const NODOUBLE_BEAVER: i32 = 6;

pub const REDOUBLE_TAKE: i32 = 7;

pub const REDOUBLE_PASS: i32 = 8;

pub const NO_REDOUBLE_TAKE: i32 = 9;

pub const TOOGOODRE_TAKE: i32 = 10;

pub const TOOGOODRE_PASS: i32 = 11;

pub const NO_REDOUBLE_BEAVER: i32 = 12;

pub const NODOUBLE_DEADCUBE: i32 = 13;

pub const NO_REDOUBLE_DEADCUBE: i32 = 14;

pub const NOT_AVAILABLE: i32 = 15;

pub const OPTIONAL_DOUBLE_TAKE: i32 = 16;

pub const OPTIONAL_REDOUBLE_TAKE: i32 = 17;

pub const OPTIONAL_DOUBLE_BEAVER: i32 = 18;

pub const OPTIONAL_DOUBLE_PASS: i32 = 19;

pub const OPTIONAL_REDOUBLE_PASS: i32 = 20;

} // verus!
