//! Scored moves as ranked hints, and the analysis of a played move.

use vstd::prelude::*;

use crate::clock::{utc_now, utc_text};
use crate::ffi::ScoredMove;
use crate::mapping::{figure, Figure, Range, Reading};
use crate::notation::{
    is_numbered, normalize_notation, normalized, notation, notation_from_an_move, numbered,
};
use crate::text::same_text;

verus! {

/// A ranked alternative of a roll.
#[derive(Debug, Clone, PartialEq)]
pub struct MoveHint<F> {
    pub gnubg_position_id: String,
    pub gnubg_match_id: String,
    pub die1: i32,
    pub die2: i32,
    pub evaluation_engine_id: i32,
    pub plies: i32,
    pub rank: i32,
    pub move_notation: String,
    pub equity: F,
    pub error_vs_best: F,
    pub win_prob: F,
    pub win_gammon: F,
    pub win_backgammon: F,
    pub lose_gammon: F,
    pub lose_backgammon: F,
    pub evaluated_utc: String,
}

/// The alternatives of a roll, the best first.
#[derive(Debug, Clone, PartialEq)]
pub struct MovesEvaluation<F> {
    pub die1: i32,
    pub die2: i32,
    pub alternatives: Vec<MoveHint<F>>,
}

/// A played move beside the best.
#[derive(Debug, Clone, PartialEq)]
pub struct MoveAnalysis<F> {
    pub played: MoveHint<F>,
    pub best: MoveHint<F>,
}

/// A roll with the smaller die first.
pub open spec fn ordered_roll(die1: i32, die2: i32) -> (i32, i32) {
    if die1 <= die2 {
        (die1, die2)
    } else {
        (die2, die1)
    }
}

/// What all the hints of a roll share.
pub struct HintContext {
    pub position: Seq<char>,
    pub match_state: Seq<char>,
    pub roll: (i32, i32),
    pub plies: i32,
    pub evaluated: Seq<char>,
}

/// Whether a hint is that of the move at index `i`: ranked from 1, in notation,
/// with its own numbers, and with its error against the first move.
pub open spec fn is_hint<T>(
    hint: MoveHint<Figure<T>>,
    scored: Seq<ScoredMove<T>>,
    i: int,
    context: HintContext,
) -> bool {
    let entry = scored[i];
    let best = Reading {
        value: scored[0].equity,
        range: Range::Equity,
        field: "MoveEquity[best]",
    };
    let equity = Reading { value: entry.equity, range: Range::Equity, field: "MoveEquity" };
    &&& hint.gnubg_position_id@ == context.position
    &&& hint.gnubg_match_id@ == context.match_state
    &&& (hint.die1, hint.die2) == context.roll
    &&& hint.evaluation_engine_id == 0
    &&& hint.plies == context.plies
    &&& hint.rank == (i + 1) as i32
    &&& hint.move_notation@ == notation(entry.mv.an_move@)
    &&& hint.equity == Figure::Value(equity)
    &&& hint.error_vs_best == Figure::Gain { of: best, over: equity }
    &&& hint.win_prob == figure(entry.probs@[0], Range::Probability, "WinProb")
    &&& hint.win_gammon == figure(entry.probs@[1], Range::Probability, "WinGammon")
    &&& hint.win_backgammon == figure(entry.probs@[2], Range::Probability, "WinBackgammon")
    &&& hint.lose_gammon == figure(entry.probs@[3], Range::Probability, "LoseGammon")
    &&& hint.lose_backgammon == figure(entry.probs@[4], Range::Probability, "LoseBackgammon")
    &&& hint.evaluated_utc@ == context.evaluated
}

/// Whether alternatives are the hints of scored moves, in their order.
pub open spec fn are_hints<T>(
    moves: MovesEvaluation<Figure<T>>,
    scored: Seq<ScoredMove<T>>,
    context: HintContext,
) -> bool {
    &&& (moves.die1, moves.die2) == context.roll
    &&& moves.alternatives@.len() == scored.len()
    &&& forall|i: int|
        0 <= i < scored.len() ==> is_hint(#[trigger] moves.alternatives@[i], scored, i, context)
}

/// Whether a result is that of ranking scored moves: the hints, unless the
/// position has no identifier to store them under.
pub open spec fn ranks<T>(
    result: Result<MovesEvaluation<Figure<T>>, String>,
    scored: Seq<ScoredMove<T>>,
    storage_id: Result<String, String>,
    match_id: Seq<char>,
    roll: (i32, i32),
    plies: i32,
    evaluated: Seq<char>,
) -> bool {
    match storage_id {
        Ok(position) => {
            &&& result matches Ok(moves)
            &&& are_hints(
                moves,
                scored,
                HintContext {
                    position: position@,
                    match_state: match_id,
                    roll: ordered_roll(roll.0, roll.1),
                    plies,
                    evaluated,
                },
            )
        },
        Err(fault) => result matches Err(message) && message@ == fault@,
    }
}

/// Whether the points of every move can be numbered from 1.
pub open spec fn all_numbered<T>(scored: Seq<ScoredMove<T>>) -> bool {
    forall|i: int| 0 <= i < scored.len() ==> numbered((#[trigger] scored[i]).mv.an_move@)
}

/// Decides [`all_numbered`].
pub fn are_numbered<T>(scored: &[ScoredMove<T>]) -> (writable: bool)
    ensures
        writable == all_numbered(scored@),
{
    let mut i: usize = 0;
    while i < scored.len()
        invariant
            i <= scored@.len(),
            forall|k: int| 0 <= k < i ==> numbered((#[trigger] scored@[k]).mv.an_move@),
        decreases scored@.len() - i,
    {
        if !is_numbered(scored[i].mv.an_move.as_slice()) {
            assert(!numbered(scored@[i as int].mv.an_move@));
            return false;
        }
        i = i + 1;
    }
    true
}

/// The hint of the move at an index.
fn hint<T: Copy>(
    scored: &[ScoredMove<T>],
    i: usize,
    storage_id: &String,
    match_id: &str,
    roll: (i32, i32),
    plies_stamp: i32,
    evaluated_utc: &str,
) -> (hint: MoveHint<Figure<T>>)
    requires
        i < scored@.len(),
        i < usize::MAX,
        numbered(scored@[i as int].mv.an_move@),
    ensures
        is_hint(
            hint,
            scored@,
            i as int,
            HintContext {
                position: storage_id@,
                match_state: match_id@,
                roll,
                plies: plies_stamp,
                evaluated: evaluated_utc@,
            },
        ),
{
    let entry = &scored[i];
    let best = Reading {
        value: scored[0].equity,
        range: Range::Equity,
        field: "MoveEquity[best]",
    };
    let equity = Reading { value: entry.equity, range: Range::Equity, field: "MoveEquity" };
    let win_prob = Reading { value: entry.probs[0], range: Range::Probability, field: "WinProb" };
    let win_gammon = Reading {
        value: entry.probs[1],
        range: Range::Probability,
        field: "WinGammon",
    };
    let win_backgammon = Reading {
        value: entry.probs[2],
        range: Range::Probability,
        field: "WinBackgammon",
    };
    let lose_gammon = Reading {
        value: entry.probs[3],
        range: Range::Probability,
        field: "LoseGammon",
    };
    let lose_backgammon = Reading {
        value: entry.probs[4],
        range: Range::Probability,
        field: "LoseBackgammon",
    };
    MoveHint {
        gnubg_position_id: storage_id.clone(),
        gnubg_match_id: match_id.to_owned(),
        die1: roll.0,
        die2: roll.1,
        evaluation_engine_id: 0,
        plies: plies_stamp,
        rank: (i + 1) as i32,
        move_notation: notation_from_an_move(entry.mv.an_move.as_slice()),
        equity: Figure::Value(equity),
        error_vs_best: Figure::Gain { of: best, over: equity },
        win_prob: Figure::Value(win_prob),
        win_gammon: Figure::Value(win_gammon),
        win_backgammon: Figure::Value(win_backgammon),
        lose_gammon: Figure::Value(lose_gammon),
        lose_backgammon: Figure::Value(lose_backgammon),
        evaluated_utc: evaluated_utc.to_owned(),
    }
}

/// Ranks scored moves as evaluated at a given time: [`ranks`].
pub fn move_hints_at<T: Copy>(
    scored: &[ScoredMove<T>],
    storage_id: Result<String, String>,
    match_id: &str,
    die1: i32,
    die2: i32,
    plies_stamp: i32,
    evaluated_utc: &str,
) -> (result: Result<MovesEvaluation<Figure<T>>, String>)
    requires
        all_numbered(scored@),
    ensures
        ranks(
            result,
            scored@,
            storage_id,
            match_id@,
            (die1, die2),
            plies_stamp,
            evaluated_utc@,
        ),
{
    match storage_id {
        Err(message) => Err(message),
        Ok(position) => {
            let roll: (i32, i32) = if die1 <= die2 {
                (die1, die2)
            } else {
                (die2, die1)
            };
            let ghost context = HintContext {
                position: position@,
                match_state: match_id@,
                roll,
                plies: plies_stamp,
                evaluated: evaluated_utc@,
            };
            let mut alternatives: Vec<MoveHint<Figure<T>>> = Vec::new();
            let mut i: usize = 0;
            while i < scored.len()
                invariant
                    i <= scored@.len(),
                    all_numbered(scored@),
                    alternatives@.len() == i,
                    context == (HintContext {
                        position: position@,
                        match_state: match_id@,
                        roll,
                        plies: plies_stamp,
                        evaluated: evaluated_utc@,
                    }),
                    forall|k: int|
                        0 <= k < i ==> is_hint(#[trigger] alternatives@[k], scored@, k, context),
                decreases scored@.len() - i,
            {
                let next = hint(scored, i, &position, match_id, roll, plies_stamp, evaluated_utc);
                alternatives.push(next);
                i = i + 1;
            }
            Ok(MovesEvaluation { die1: roll.0, die2: roll.1, alternatives })
        },
    }
}

/// Ranks scored moves as evaluated now: [`ranks`], at some moment.
pub fn move_hints<T: Copy>(
    scored: &[ScoredMove<T>],
    storage_id: Result<String, String>,
    match_id: &str,
    die1: i32,
    die2: i32,
    plies_stamp: i32,
) -> (result: Result<MovesEvaluation<Figure<T>>, String>)
    requires
        all_numbered(scored@),
    ensures
        exists|nanos: i128|
            ranks(
                result,
                scored@,
                storage_id,
                match_id@,
                (die1, die2),
                plies_stamp,
                #[trigger] utc_text(nanos as int),
            ),
{
    let evaluated_utc = utc_now();
    move_hints_at(
        scored,
        storage_id,
        match_id,
        die1,
        die2,
        plies_stamp,
        evaluated_utc.as_str(),
    )
}

/// The index of the alternative that a played move is: the first with the same
/// normalized notation, and the best where there is none.
pub open spec fn played_index<F>(alternatives: Seq<MoveHint<F>>, played: Seq<char>) -> int {
    first_match(alternatives, played, 0)
}

/// The first index from `from` on whose move is written like `played`, and 0
/// where there is none.
pub open spec fn first_match<F>(
    alternatives: Seq<MoveHint<F>>,
    played: Seq<char>,
    from: int,
) -> int
    decreases alternatives.len() - from,
{
    if from < 0 || from >= alternatives.len() {
        0
    } else if normalized(alternatives[from].move_notation@) == normalized(played) {
        from
    } else {
        first_match(alternatives, played, from + 1)
    }
}

/// A copy of a hint.
fn copied<F: Copy>(hint: &MoveHint<F>) -> (copy: MoveHint<F>)
    ensures
        copy == *hint,
{
    MoveHint {
        gnubg_position_id: hint.gnubg_position_id.clone(),
        gnubg_match_id: hint.gnubg_match_id.clone(),
        die1: hint.die1,
        die2: hint.die2,
        evaluation_engine_id: hint.evaluation_engine_id,
        plies: hint.plies,
        rank: hint.rank,
        move_notation: hint.move_notation.clone(),
        equity: hint.equity,
        error_vs_best: hint.error_vs_best,
        win_prob: hint.win_prob,
        win_gammon: hint.win_gammon,
        win_backgammon: hint.win_backgammon,
        lose_gammon: hint.lose_gammon,
        lose_backgammon: hint.lose_backgammon,
        evaluated_utc: hint.evaluated_utc.clone(),
    }
}

/// Analyzes a played move: the alternative that it is, or the best where it is
/// none, beside the best. Without alternatives there is nothing to compare.
pub fn analyze_payload<F: Copy>(moves: MovesEvaluation<F>, played_notation: &str) -> (result:
    Result<MoveAnalysis<F>, String>)
    ensures
        match result {
            Ok(analysis) => {
                &&& moves.alternatives@.len() > 0
                &&& analysis.best == moves.alternatives@[0]
                &&& analysis.played == moves.alternatives@[played_index(
                    moves.alternatives@,
                    played_notation@,
                )]
            },
            Err(message) => moves.alternatives@.len() == 0 && message@
                == "no ranked alternatives"@,
        },
{
    let alternatives = moves.alternatives;
    if alternatives.len() == 0 {
        return Err("no ranked alternatives".to_owned());
    }
    let best = copied(&alternatives[0]);
    let wanted = normalize_notation(played_notation);
    let mut found: usize = 0;
    let mut i: usize = 0;
    while i < alternatives.len()
        invariant_except_break
            i <= alternatives@.len(),
            found == 0,
            first_match(alternatives@, played_notation@, 0) == first_match(
                alternatives@,
                played_notation@,
                i as int,
            ),
        invariant
            wanted@ == normalized(played_notation@),
            alternatives@.len() > 0,
        ensures
            found < alternatives@.len(),
            found == first_match(alternatives@, played_notation@, 0),
        decreases alternatives@.len() - i,
    {
        let candidate = normalize_notation(alternatives[i].move_notation.as_str());
        if same_text(candidate.as_str(), wanted.as_str()) {
            found = i;
            break;
        }
        i = i + 1;
    }
    let played = copied(&alternatives[found]);
    Ok(MoveAnalysis { played, best })
}

} // verus!
