//! What holds of ranked moves and their analysis as a whole.

use vstd::prelude::*;

use crate::ffi::{CubeDecisionResult, ScoredMove};
use crate::mapping::{
    cube_figures, decision_of, position_figures, unrecognised_decision, CubeAction, CubeEvaluation,
    Figure, PositionEvaluation, Range,
};
use crate::moves::{
    all_numbered, are_hints, first_match, is_hint, ordered_roll, played_index, ranks, HintContext, MoveHint,
    MovesEvaluation,
};
use crate::notation::{normalized, notation, numbered};
use crate::notation_laws::{hops, law_same_notation_same_play};
use crate::text::signed_decimal;

verus! {

/// The order in which the dice are named does not matter.
pub proof fn law_dice_order<T>(
    result: Result<MovesEvaluation<Figure<T>>, String>,
    scored: Seq<ScoredMove<T>>,
    storage_id: Result<String, String>,
    match_id: Seq<char>,
    die1: i32,
    die2: i32,
    plies: i32,
    evaluated: Seq<char>,
)
    ensures
        ranks(result, scored, storage_id, match_id, (die1, die2), plies, evaluated) <==> ranks(
            result,
            scored,
            storage_id,
            match_id,
            (die2, die1),
            plies,
            evaluated,
        ),
{
    assert(ordered_roll(die1, die2) == ordered_roll(die2, die1));
}

/// The best move loses nothing against the best.
pub proof fn law_best_loses_nothing<T>(
    moves: MovesEvaluation<Figure<T>>,
    scored: Seq<ScoredMove<T>>,
    context: HintContext,
)
    requires
        are_hints(moves, scored, context),
        scored.len() > 0,
    ensures
        moves.alternatives@[0].error_vs_best matches Figure::Gain { of, over } && of.value
            == over.value && of.range == over.range,
{
    assert(is_hint(moves.alternatives@[0], scored, 0, context));
}

proof fn lemma_first_match<F>(alternatives: Seq<MoveHint<F>>, played: Seq<char>, from: int)
    requires
        0 <= from <= alternatives.len(),
        alternatives.len() > 0,
    ensures
        ({
            let found = first_match(alternatives, played, from);
            ||| {
                &&& from <= found < alternatives.len()
                &&& normalized(alternatives[found].move_notation@) == normalized(played)
                &&& forall|i: int|
                    from <= i < found ==> normalized((#[trigger] alternatives[i]).move_notation@)
                        != normalized(played)
            }
            ||| {
                &&& found == 0
                &&& forall|i: int|
                    from <= i < alternatives.len() ==> normalized(
                        (#[trigger] alternatives[i]).move_notation@,
                    ) != normalized(played)
            }
        }),
    decreases alternatives.len() - from,
{
    if from < alternatives.len() && normalized(alternatives[from].move_notation@) != normalized(
        played,
    ) {
        lemma_first_match(alternatives, played, from + 1);
    }
}

/// A played move is the first alternative with its normalized notation, and the
/// best where no alternative has it.
pub proof fn law_played_is_first_match<F>(alternatives: Seq<MoveHint<F>>, played: Seq<char>)
    requires
        alternatives.len() > 0,
    ensures
        0 <= played_index(alternatives, played) < alternatives.len(),
        (exists|i: int|
            0 <= i < alternatives.len() && normalized((#[trigger] alternatives[i]).move_notation@)
                == normalized(played)) ==> normalized(
            alternatives[played_index(alternatives, played)].move_notation@,
        ) == normalized(played),
        forall|i: int|
            0 <= i < played_index(alternatives, played) ==> normalized(
                (#[trigger] alternatives[i]).move_notation@,
            ) != normalized(played),
        !(exists|i: int|
            0 <= i < alternatives.len() && normalized((#[trigger] alternatives[i]).move_notation@)
                == normalized(played)) ==> played_index(alternatives, played) == 0,
{
    lemma_first_match(alternatives, played, 0);
}

/// Which alternative is found depends on the normalized notation alone, so the
/// order of the hops, the letters' case and the stars do not matter.
pub proof fn law_analysis_by_normalized_notation<F>(
    alternatives: Seq<MoveHint<F>>,
    a: Seq<char>,
    b: Seq<char>,
)
    requires
        normalized(a) == normalized(b),
    ensures
        played_index(alternatives, a) == played_index(alternatives, b),
{
    lemma_first_match_same(alternatives, a, b, 0);
}

proof fn lemma_first_match_same<F>(
    alternatives: Seq<MoveHint<F>>,
    a: Seq<char>,
    b: Seq<char>,
    from: int,
)
    requires
        normalized(a) == normalized(b),
    ensures
        first_match(alternatives, a, from) == first_match(alternatives, b, from),
    decreases alternatives.len() - from,
{
    if 0 <= from < alternatives.len() {
        lemma_first_match_same(alternatives, a, b, from + 1);
    }
}

/// A move that is one of the alternatives, written in notation, is found: the
/// alternative found makes the same hops, each as often, and none before it
/// does.
pub proof fn law_analysis_finds_the_play<T>(
    moves: MovesEvaluation<Figure<T>>,
    scored: Seq<ScoredMove<T>>,
    context: HintContext,
    an_move: Seq<i32>,
    k: int,
)
    requires
        are_hints(moves, scored, context),
        0 <= k < scored.len(),
        hops(scored[k].mv.an_move@).to_multiset() == hops(an_move).to_multiset(),
    ensures
        ({
            let found = played_index(moves.alternatives@, notation(an_move));
            &&& 0 <= found <= k
            &&& hops(scored[found].mv.an_move@).to_multiset() == hops(an_move).to_multiset()
            &&& forall|i: int|
                0 <= i < found ==> hops((#[trigger] scored[i]).mv.an_move@).to_multiset() != hops(
                    an_move,
                ).to_multiset()
        }),
{
    let alternatives = moves.alternatives@;
    let played = notation(an_move);
    assert forall|i: int| 0 <= i < scored.len() implies (normalized(
        (#[trigger] alternatives[i]).move_notation@,
    ) == normalized(played) <==> hops(scored[i].mv.an_move@).to_multiset() == hops(
        an_move,
    ).to_multiset()) by {
        assert(is_hint(alternatives[i], scored, i, context));
        law_same_notation_same_play(scored[i].mv.an_move@, an_move);
    }
    assert(normalized(alternatives[k].move_notation@) == normalized(played));
    law_played_is_first_match(alternatives, played);
    let found = played_index(alternatives, played);
    assert forall|i: int| 0 <= i < found implies hops(
        (#[trigger] scored[i]).mv.an_move@,
    ).to_multiset() != hops(an_move).to_multiset() by {
        assert(normalized(alternatives[i].move_notation@) != normalized(played));
    }
}

/// The native decisions are those numbered 0 to 20; a position is too good to
/// double only where no double is recommended.
pub proof fn law_decisions(decision: i32)
    ensures
        decision_of(decision) is Some <==> 0 <= decision <= 20,
        decision_of(decision) matches Some((action, true)) ==> action == CubeAction::NoDouble,
{
}

/// Whether a figure is a native number as it is, held to a range and reported
/// under a name.
pub open spec fn is_reading<T>(figure: Figure<T>, value: T, range: Range, name: Seq<char>) -> bool {
    figure matches Figure::Value(reading) && reading.value == value && reading.range == range
        && reading.field@ == name
}

/// Whether a payload holds a position's native numbers, slot by slot.
pub open spec fn position_slots<T>(
    payload: PositionEvaluation<Figure<T>>,
    output: Seq<T>,
) -> bool {
    &&& is_reading(payload.win_prob, output[0], Range::Probability, "WinProb"@)
    &&& is_reading(payload.win_gammon, output[1], Range::Probability, "WinGammon"@)
    &&& is_reading(payload.win_backgammon, output[2], Range::Probability, "WinBackgammon"@)
    &&& is_reading(payload.lose_gammon, output[3], Range::Probability, "LoseGammon"@)
    &&& is_reading(payload.lose_backgammon, output[4], Range::Probability, "LoseBackgammon"@)
    &&& is_reading(payload.equity, output[5], Range::Equity, "Equity"@)
    &&& is_reading(payload.cubeful_equity, output[6], Range::Cubeful, "CubefulEquity"@)
}

/// A position's payload holds win, win gammon, win backgammon, lose gammon and
/// lose backgammon from slots 0 to 4, the equity from slot 5 and the cubeful
/// equity from slot 6.
pub proof fn law_position_slots<T>(output: Seq<T>)
    ensures
        position_slots(position_figures(output), output),
{
}

/// Whether a native decision recommends a double.
pub open spec fn recommends_double(decision: int) -> bool {
    decision == 0 || decision == 1 || decision == 5 || decision == 7 || decision == 8 || 16
        <= decision <= 20
}

/// Whether a native decision says that the position is too good to double.
pub open spec fn too_good(decision: int) -> bool {
    decision == 3 || decision == 4 || decision == 10 || decision == 11
}

/// The native decisions 0 to 20 are recognised and no others; a double is
/// recommended for 0, 1, 5, 7, 8 and 16 to 20, and the position is too good for
/// 3, 4, 10 and 11.
pub proof fn law_decision_table(decision: i32)
    ensures
        decision_of(decision) is Some <==> 0 <= decision <= 20,
        decision_of(decision) matches Some(mapped) ==> {
            &&& mapped.0 == CubeAction::Double <==> recommends_double(decision as int)
            &&& mapped.0 == CubeAction::NoDouble <==> !recommends_double(decision as int)
            &&& mapped.1 <==> too_good(decision as int)
        },
        unrecognised_decision(decision) == "unrecognised cubedecision value "@ + signed_decimal(
            decision as int,
        ) + " from gnubg"@,
{
}

/// Whether a payload holds a cube decision's native numbers: the equities of no
/// double, take and drop from slots 1 to 3, what taking and dropping gain over
/// not doubling, and the three chances to win of the game without a double and
/// of a double taken.
pub open spec fn cube_slots<T>(
    payload: CubeEvaluation<Figure<T>>,
    result: CubeDecisionResult<T>,
) -> bool {
    let equities = result.equities@;
    let ours = result.cubeful_outputs@[0]@;
    let theirs = result.cubeful_outputs@[1]@;
    &&& is_reading(payload.no_double_equity, equities[1], Range::Cubeful, "NoDoubleEquity"@)
    &&& is_reading(payload.take_equity, equities[2], Range::Cubeful, "TakeEquity"@)
    &&& is_reading(payload.drop_equity, equities[3], Range::Cubeful, "DropEquity"@)
    &&& payload.double_take_gain matches Figure::Gain { of, over } && Figure::Value(of)
        == payload.take_equity && Figure::Value(over) == payload.no_double_equity
    &&& payload.double_drop_gain matches Figure::Gain { of, over } && Figure::Value(of)
        == payload.drop_equity && Figure::Value(over) == payload.no_double_equity
    &&& payload.cube_efficiency is None
    &&& payload.our_win_prob matches Some(figure) && is_reading(
        figure,
        ours[0],
        Range::Probability,
        "NoDouble.WinProb"@,
    )
    &&& payload.our_gammon_prob matches Some(figure) && is_reading(
        figure,
        ours[1],
        Range::Probability,
        "NoDouble.WinGammon"@,
    )
    &&& payload.our_backgammon_prob matches Some(figure) && is_reading(
        figure,
        ours[2],
        Range::Probability,
        "NoDouble.WinBackgammon"@,
    )
    &&& payload.opp_win_prob matches Some(figure) && is_reading(
        figure,
        theirs[0],
        Range::Probability,
        "DoubleTake.WinProb"@,
    )
    &&& payload.opp_gammon_prob matches Some(figure) && is_reading(
        figure,
        theirs[1],
        Range::Probability,
        "DoubleTake.WinGammon"@,
    )
    &&& payload.opp_backgammon_prob matches Some(figure) && is_reading(
        figure,
        theirs[2],
        Range::Probability,
        "DoubleTake.WinBackgammon"@,
    )
}

/// A cube decision's payload holds its native numbers, slot by slot, and the
/// action and the flag that it is given.
pub proof fn law_cube_slots<T>(result: CubeDecisionResult<T>, action: CubeAction, good: bool)
    ensures
        cube_slots(cube_figures(result, action, good), result),
        cube_figures(result, action, good).recommended_action == action,
        cube_figures(result, action, good).too_good_to_double == good,
{
}

/// The smaller of two dice.
pub open spec fn smaller(a: i32, b: i32) -> i32 {
    if b < a {
        b
    } else {
        a
    }
}

/// The larger of two dice.
pub open spec fn larger(a: i32, b: i32) -> i32 {
    if b < a {
        a
    } else {
        b
    }
}

/// Whether a hint is the scored move at an index as it is ranked: its place from
/// 1 on, its notation, its own equity and chances, and as its error what the
/// first move's equity is above its own.
pub open spec fn is_ranked<T>(
    hint: MoveHint<Figure<T>>,
    scored: Seq<ScoredMove<T>>,
    i: int,
    position: Seq<char>,
    match_state: Seq<char>,
    roll: (i32, i32),
    plies: i32,
    evaluated: Seq<char>,
) -> bool {
    let chances = scored[i].probs@;
    &&& hint.gnubg_position_id@ == position
    &&& hint.gnubg_match_id@ == match_state
    &&& hint.die1 == smaller(roll.0, roll.1)
    &&& hint.die2 == larger(roll.0, roll.1)
    &&& hint.evaluation_engine_id == 0
    &&& hint.plies == plies
    &&& i < i32::MAX ==> hint.rank == i + 1
    &&& hint.move_notation@ == notation(scored[i].mv.an_move@)
    &&& is_reading(hint.equity, scored[i].equity, Range::Equity, "MoveEquity"@)
    &&& hint.error_vs_best matches Figure::Gain { of, over } && {
        &&& of.value == scored[0].equity
        &&& of.range == Range::Equity
        &&& of.field@ == "MoveEquity[best]"@
        &&& Figure::Value(over) == hint.equity
    }
    &&& is_reading(hint.win_prob, chances[0], Range::Probability, "WinProb"@)
    &&& is_reading(hint.win_gammon, chances[1], Range::Probability, "WinGammon"@)
    &&& is_reading(hint.win_backgammon, chances[2], Range::Probability, "WinBackgammon"@)
    &&& is_reading(hint.lose_gammon, chances[3], Range::Probability, "LoseGammon"@)
    &&& is_reading(hint.lose_backgammon, chances[4], Range::Probability, "LoseBackgammon"@)
    &&& hint.evaluated_utc@ == evaluated
}

/// The hints of scored moves are one for each, in their order, and each is its
/// move as it is ranked.
pub proof fn law_ranked_moves<T>(
    moves: MovesEvaluation<Figure<T>>,
    scored: Seq<ScoredMove<T>>,
    context: HintContext,
    roll: (i32, i32),
)
    requires
        are_hints(moves, scored, context),
        context.roll == ordered_roll(roll.0, roll.1),
    ensures
        moves.die1 == smaller(roll.0, roll.1),
        moves.die2 == larger(roll.0, roll.1),
        moves.alternatives@.len() == scored.len(),
        forall|i: int|
            0 <= i < scored.len() ==> is_ranked(
                #[trigger] moves.alternatives@[i],
                scored,
                i,
                context.position,
                context.match_state,
                roll,
                context.plies,
                context.evaluated,
            ),
{
    assert forall|i: int| 0 <= i < scored.len() implies is_ranked(
        #[trigger] moves.alternatives@[i],
        scored,
        i,
        context.position,
        context.match_state,
        roll,
        context.plies,
        context.evaluated,
    ) by {
        assert(is_hint(moves.alternatives@[i], scored, i, context));
    }
}

/// The error of every alternative is measured from one and the same equity, that
/// of the first move, down to the alternative's own.
pub proof fn law_errors_against_the_best<T>(
    moves: MovesEvaluation<Figure<T>>,
    scored: Seq<ScoredMove<T>>,
    context: HintContext,
    i: int,
    j: int,
)
    requires
        are_hints(moves, scored, context),
        0 <= i < scored.len(),
        0 <= j < scored.len(),
    ensures
        moves.alternatives@[i].error_vs_best matches Figure::Gain { of, over } && of.value
            == scored[0].equity && over.value == scored[i].equity && of.range == Range::Equity
            && over.range == Range::Equity,
        moves.alternatives@[i].error_vs_best matches Figure::Gain { of: a, .. } && (
        moves.alternatives@[j].error_vs_best matches Figure::Gain { of: b, .. } && a == b),
{
    assert(is_hint(moves.alternatives@[i], scored, i, context));
    assert(is_hint(moves.alternatives@[j], scored, j, context));
}

/// Ranking gives hints for all moves where the position can be stored, and what
/// is wrong with it otherwise.
pub proof fn law_ranking<T>(
    result: Result<MovesEvaluation<Figure<T>>, String>,
    scored: Seq<ScoredMove<T>>,
    storage_id: Result<String, String>,
    match_id: Seq<char>,
    roll: (i32, i32),
    plies: i32,
    evaluated: Seq<char>,
)
    requires
        ranks(result, scored, storage_id, match_id, roll, plies, evaluated),
    ensures
        storage_id matches Err(fault) ==> (result matches Err(message) && message@ == fault@),
        storage_id matches Ok(position) ==> {
            &&& result matches Ok(moves)
            &&& moves.die1 == smaller(roll.0, roll.1)
            &&& moves.die2 == larger(roll.0, roll.1)
            &&& moves.alternatives@.len() == scored.len()
            &&& forall|i: int|
                0 <= i < scored.len() ==> is_ranked(
                    #[trigger] moves.alternatives@[i],
                    scored,
                    i,
                    position@,
                    match_id,
                    roll,
                    plies,
                    evaluated,
                )
        },
{
    if storage_id is Ok {
        law_ranked_moves(
            result->Ok_0,
            scored,
            HintContext {
                position: storage_id->Ok_0@,
                match_state: match_id,
                roll: ordered_roll(roll.0, roll.1),
                plies,
                evaluated,
            },
            roll,
        );
    }
}

/// Moves can be ranked exactly when each of them can be written.
pub proof fn law_writable_lists<T>(scored: Seq<ScoredMove<T>>)
    ensures
        all_numbered(scored) <==> forall|i: int| #![trigger scored[i]]
            0 <= i < scored.len() ==> numbered(scored[i].mv.an_move@),
{
}

} // verus!
