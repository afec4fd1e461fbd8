//! The names of the evaluation methods.

use vstd::prelude::*;

verus! {

pub const EVALUATE_POSITION: &'static str = "evaluatePosition";

pub const EVALUATE_CUBE: &'static str = "evaluateCube";

pub const EVALUATE_MOVES: &'static str = "evaluateMoves";

pub const ANALYZE_MOVE: &'static str = "analyzeMove";

/// Whether a name is that of an evaluation method.
pub open spec fn is_evaluation(method: Seq<char>) -> bool {
    ||| method == EVALUATE_POSITION@
    ||| method == EVALUATE_CUBE@
    ||| method == EVALUATE_MOVES@
    ||| method == ANALYZE_MOVE@
}

/// The four names are all different.
pub proof fn lemma_methods_differ()
    ensures
        EVALUATE_POSITION@ != EVALUATE_CUBE@,
        EVALUATE_POSITION@ != EVALUATE_MOVES@,
        EVALUATE_POSITION@ != ANALYZE_MOVE@,
        EVALUATE_CUBE@ != EVALUATE_MOVES@,
        EVALUATE_CUBE@ != ANALYZE_MOVE@,
        EVALUATE_MOVES@ != ANALYZE_MOVE@,
{
    reveal_strlit("evaluatePosition");
    reveal_strlit("evaluateCube");
    reveal_strlit("evaluateMoves");
    reveal_strlit("analyzeMove");
    assert(EVALUATE_POSITION@.len() == 16);
    assert(EVALUATE_CUBE@.len() == 12);
    assert(EVALUATE_MOVES@.len() == 13);
    assert(ANALYZE_MOVE@.len() == 11);
}

} // verus!
