//! Native results mapped onto the protocol's payloads: which native number
//! stands in which field, what range it is held to, and what a native cube
//! decision comes to.
//!
//! The numbers themselves are passed on; clamping them to their ranges and
//! subtracting them is left to whoever has the floating point.

use vstd::prelude::*;

use crate::ffi::{cube_decision, equity_index, outputs, CubeDecisionResult};
use crate::text::{signed_decimal, signed_decimal_text};

verus! {

/// What is done with the cube.
#[derive(Debug, Clone, Copy, PartialEq, Eq, Structural)]
pub enum CubeAction {
    Double,
    NoDouble,
}

/// The action that a native cube decision comes to, and whether the position is
/// too good to double.
pub open spec fn decision_of(decision: i32) -> Option<(CubeAction, bool)> {
    if decision == cube_decision::DOUBLE_TAKE || decision == cube_decision::DOUBLE_PASS || decision
        == cube_decision::DOUBLE_BEAVER || decision == cube_decision::REDOUBLE_TAKE || decision
        == cube_decision::REDOUBLE_PASS || decision == cube_decision::OPTIONAL_DOUBLE_TAKE
        || decision == cube_decision::OPTIONAL_REDOUBLE_TAKE || decision
        == cube_decision::OPTIONAL_DOUBLE_BEAVER || decision == cube_decision::OPTIONAL_DOUBLE_PASS
        || decision == cube_decision::OPTIONAL_REDOUBLE_PASS {
        Some((CubeAction::Double, false))
    } else if decision == cube_decision::NODOUBLE_TAKE || decision == cube_decision::NODOUBLE_BEAVER
        || decision == cube_decision::NO_REDOUBLE_TAKE || decision
        == cube_decision::NO_REDOUBLE_BEAVER || decision == cube_decision::NODOUBLE_DEADCUBE
        || decision == cube_decision::NO_REDOUBLE_DEADCUBE || decision
        == cube_decision::NOT_AVAILABLE {
        Some((CubeAction::NoDouble, false))
    } else if decision == cube_decision::TOOGOOD_TAKE || decision == cube_decision::TOOGOOD_PASS
        || decision == cube_decision::TOOGOODRE_TAKE || decision == cube_decision::TOOGOODRE_PASS {
        Some((CubeAction::NoDouble, true))
    } else {
        None
    }
}

/// What is said of a cube decision that there is not.
pub open spec fn unrecognised_decision(decision: i32) -> Seq<char> {
    "unrecognised cubedecision value "@ + signed_decimal(decision as int) + " from gnubg"@
}

/// Collapses a native cube decision: [`decision_of`].
pub fn map_decision(decision: i32) -> (mapped: Result<(CubeAction, bool), String>)
    ensures
        match mapped {
            Ok(mapped) => decision_of(decision) == Some(mapped),
            Err(message) => decision_of(decision) is None && message@ == unrecognised_decision(
                decision,
            ),
        },
{
    if decision == cube_decision::DOUBLE_TAKE || decision == cube_decision::DOUBLE_PASS || decision
        == cube_decision::DOUBLE_BEAVER || decision == cube_decision::REDOUBLE_TAKE || decision
        == cube_decision::REDOUBLE_PASS || decision == cube_decision::OPTIONAL_DOUBLE_TAKE
        || decision == cube_decision::OPTIONAL_REDOUBLE_TAKE || decision
        == cube_decision::OPTIONAL_DOUBLE_BEAVER || decision == cube_decision::OPTIONAL_DOUBLE_PASS
        || decision == cube_decision::OPTIONAL_REDOUBLE_PASS {
        Ok((CubeAction::Double, false))
    } else if decision == cube_decision::NODOUBLE_TAKE || decision == cube_decision::NODOUBLE_BEAVER
        || decision == cube_decision::NO_REDOUBLE_TAKE || decision
        == cube_decision::NO_REDOUBLE_BEAVER || decision == cube_decision::NODOUBLE_DEADCUBE
        || decision == cube_decision::NO_REDOUBLE_DEADCUBE || decision
        == cube_decision::NOT_AVAILABLE {
        Ok((CubeAction::NoDouble, false))
    } else if decision == cube_decision::TOOGOOD_TAKE || decision == cube_decision::TOOGOOD_PASS
        || decision == cube_decision::TOOGOODRE_TAKE || decision == cube_decision::TOOGOODRE_PASS {
        Ok((CubeAction::NoDouble, true))
    } else {
        let mut message = "unrecognised cubedecision value ".to_owned();
        message.append(signed_decimal_text(decision).as_str());
        message.append(" from gnubg");
        Err(message)
    }
}

/// The range that a number is held to.
#[derive(Debug, Clone, Copy, PartialEq, Eq, Structural)]
pub enum Range {
    Equity,
    Cubeful,
    Probability,
}

/// A native number, the range that it is held to, and the name under which it
/// is reported where it falls out.
#[derive(Debug, Clone, Copy, PartialEq)]
pub struct Reading<T> {
    pub value: T,
    pub range: Range,
    pub field: &'static str,
}

/// A number of a payload: a reading, or the gain of one reading over another.
#[derive(Debug, Clone, Copy, PartialEq)]
pub enum Figure<T> {
    Value(Reading<T>),
    Gain { of: Reading<T>, over: Reading<T> },
}

/// A figure that is a reading.
pub open spec fn figure<T>(value: T, range: Range, field: &'static str) -> Figure<T> {
    Figure::Value(Reading { value, range, field })
}

/// The evaluation of a position.
#[derive(Debug, Clone, Copy, PartialEq)]
pub struct PositionEvaluation<F> {
    pub equity: F,
    pub cubeful_equity: F,
    pub win_prob: F,
    pub win_gammon: F,
    pub win_backgammon: F,
    pub lose_gammon: F,
    pub lose_backgammon: F,
}

/// The payload of a position's evaluation.
pub open spec fn position_figures<T>(output: Seq<T>) -> PositionEvaluation<Figure<T>> {
    PositionEvaluation {
        equity: figure(output[outputs::CUBELESS as int], Range::Equity, "Equity"),
        cubeful_equity: figure(output[outputs::CUBEFUL as int], Range::Cubeful, "CubefulEquity"),
        win_prob: figure(output[outputs::WIN as int], Range::Probability, "WinProb"),
        win_gammon: figure(output[outputs::WIN_GAMMON as int], Range::Probability, "WinGammon"),
        win_backgammon: figure(
            output[outputs::WIN_BACKGAMMON as int],
            Range::Probability,
            "WinBackgammon",
        ),
        lose_gammon: figure(output[outputs::LOSE_GAMMON as int], Range::Probability, "LoseGammon"),
        lose_backgammon: figure(
            output[outputs::LOSE_BACKGAMMON as int],
            Range::Probability,
            "LoseBackgammon",
        ),
    }
}

/// A figure that is a reading: [`figure`].
fn reading<T>(value: T, range: Range, field: &'static str) -> (shown: Figure<T>)
    ensures
        shown == figure(value, range, field),
{
    Figure::Value(Reading { value, range, field })
}

/// Maps a position's evaluation: [`position_figures`].
pub fn position_payload<T: Copy>(output: &[T; 7]) -> (payload: PositionEvaluation<Figure<T>>)
    ensures
        payload == position_figures(output@),
{
    PositionEvaluation {
        equity: reading(output[outputs::CUBELESS], Range::Equity, "Equity"),
        cubeful_equity: reading(output[outputs::CUBEFUL], Range::Cubeful, "CubefulEquity"),
        win_prob: reading(output[outputs::WIN], Range::Probability, "WinProb"),
        win_gammon: reading(output[outputs::WIN_GAMMON], Range::Probability, "WinGammon"),
        win_backgammon: reading(
            output[outputs::WIN_BACKGAMMON],
            Range::Probability,
            "WinBackgammon",
        ),
        lose_gammon: reading(output[outputs::LOSE_GAMMON], Range::Probability, "LoseGammon"),
        lose_backgammon: reading(
            output[outputs::LOSE_BACKGAMMON],
            Range::Probability,
            "LoseBackgammon",
        ),
    }
}

/// The evaluation of a cube decision.
#[derive(Debug, Clone, Copy, PartialEq)]
pub struct CubeEvaluation<F> {
    pub recommended_action: CubeAction,
    pub no_double_equity: F,
    pub take_equity: F,
    pub drop_equity: F,
    pub double_take_gain: F,
    pub double_drop_gain: F,
    pub too_good_to_double: bool,
    pub cube_efficiency: Option<F>,
    pub our_win_prob: Option<F>,
    pub our_gammon_prob: Option<F>,
    pub our_backgammon_prob: Option<F>,
    pub opp_win_prob: Option<F>,
    pub opp_gammon_prob: Option<F>,
    pub opp_backgammon_prob: Option<F>,
}

/// The payload of a cube decision. The first evaluation is that of the game
/// without a double, the second that of a double taken; both are the offerer's.
/// The cube's efficiency is not known.
pub open spec fn cube_figures<T>(
    result: CubeDecisionResult<T>,
    action: CubeAction,
    too_good: bool,
) -> CubeEvaluation<Figure<T>> {
    let no_double = Reading {
        value: result.equities@[equity_index::NODOUBLE as int],
        range: Range::Cubeful,
        field: "NoDoubleEquity",
    };
    let take = Reading {
        value: result.equities@[equity_index::TAKE as int],
        range: Range::Cubeful,
        field: "TakeEquity",
    };
    let drop = Reading {
        value: result.equities@[equity_index::DROP as int],
        range: Range::Cubeful,
        field: "DropEquity",
    };
    let ours = result.cubeful_outputs@[0]@;
    let theirs = result.cubeful_outputs@[1]@;
    CubeEvaluation {
        recommended_action: action,
        no_double_equity: Figure::Value(no_double),
        take_equity: Figure::Value(take),
        drop_equity: Figure::Value(drop),
        double_take_gain: Figure::Gain { of: take, over: no_double },
        double_drop_gain: Figure::Gain { of: drop, over: no_double },
        too_good_to_double: too_good,
        cube_efficiency: None,
        our_win_prob: Some(
            figure(ours[outputs::WIN as int], Range::Probability, "NoDouble.WinProb"),
        ),
        our_gammon_prob: Some(
            figure(ours[outputs::WIN_GAMMON as int], Range::Probability, "NoDouble.WinGammon"),
        ),
        our_backgammon_prob: Some(
            figure(
                ours[outputs::WIN_BACKGAMMON as int],
                Range::Probability,
                "NoDouble.WinBackgammon",
            ),
        ),
        opp_win_prob: Some(
            figure(theirs[outputs::WIN as int], Range::Probability, "DoubleTake.WinProb"),
        ),
        opp_gammon_prob: Some(
            figure(theirs[outputs::WIN_GAMMON as int], Range::Probability, "DoubleTake.WinGammon"),
        ),
        opp_backgammon_prob: Some(
            figure(
                theirs[outputs::WIN_BACKGAMMON as int],
                Range::Probability,
                "DoubleTake.WinBackgammon",
            ),
        ),
    }
}

/// Maps a cube decision: [`cube_figures`], unless there is no such decision.
pub fn cube_payload<T: Copy>(result: &CubeDecisionResult<T>) -> (payload: Result<
    CubeEvaluation<Figure<T>>,
    String,
>)
    ensures
        match payload {
            Ok(payload) => decision_of(result.decision) matches Some(mapped) && payload
                == cube_figures(*result, mapped.0, mapped.1),
            Err(message) => decision_of(result.decision) is None && message@
                == unrecognised_decision(result.decision),
        },
{
    let no_double = Reading {
        value: result.equities[equity_index::NODOUBLE],
        range: Range::Cubeful,
        field: "NoDoubleEquity",
    };
    let take = Reading {
        value: result.equities[equity_index::TAKE],
        range: Range::Cubeful,
        field: "TakeEquity",
    };
    let drop = Reading {
        value: result.equities[equity_index::DROP],
        range: Range::Cubeful,
        field: "DropEquity",
    };
    match map_decision(result.decision) {
        Err(message) => Err(message),
        Ok((action, too_good)) => {
            let ours = &result.cubeful_outputs[0];
            let theirs = &result.cubeful_outputs[1];
            Ok(
                CubeEvaluation {
                    recommended_action: action,
                    no_double_equity: Figure::Value(no_double),
                    take_equity: Figure::Value(take),
                    drop_equity: Figure::Value(drop),
                    double_take_gain: Figure::Gain { of: take, over: no_double },
                    double_drop_gain: Figure::Gain { of: drop, over: no_double },
                    too_good_to_double: too_good,
                    cube_efficiency: None,
                    our_win_prob: Some(
                        reading(ours[outputs::WIN], Range::Probability, "NoDouble.WinProb"),
                    ),
                    our_gammon_prob: Some(
                        reading(
                            ours[outputs::WIN_GAMMON],
                            Range::Probability,
                            "NoDouble.WinGammon",
                        ),
                    ),
                    our_backgammon_prob: Some(
                        reading(
                            ours[outputs::WIN_BACKGAMMON],
                            Range::Probability,
                            "NoDouble.WinBackgammon",
                        ),
                    ),
                    opp_win_prob: Some(
                        reading(theirs[outputs::WIN], Range::Probability, "DoubleTake.WinProb"),
                    ),
                    opp_gammon_prob: Some(
                        reading(
                            theirs[outputs::WIN_GAMMON],
                            Range::Probability,
                            "DoubleTake.WinGammon",
                        ),
                    ),
                    opp_backgammon_prob: Some(
                        reading(
                            theirs[outputs::WIN_BACKGAMMON],
                            Range::Probability,
                            "DoubleTake.WinBackgammon",
                        ),
                    ),
                },
            )
        },
    }
}

} // verus!
