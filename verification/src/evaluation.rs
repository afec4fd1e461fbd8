//! One evaluation request from its parameters to its answer. It starts with a
//! native call or with a failure; what the call gives is then turned into the
//! answer.

use vstd::prelude::*;

use crate::clock::utc_text;
use crate::engine::{
    evaluates_cube, evaluates_position, has_nul, holds_nul, resolution, resolve_level,
    scores_moves, Engine, LevelError, LevelFault, NativeCall, Resolved,
};
use crate::ffi::{error_text, CubeDecisionResult, GnubgApiError, ScoredMove};
use crate::json::JsonValue;
use crate::mapping::{
    cube_figures, cube_payload, decision_of, position_figures, position_payload,
    unrecognised_decision, CubeEvaluation, Figure, PositionEvaluation,
};
use crate::methods;
use crate::moves::{
    all_numbered, analyze_payload, are_hints, move_hints, move_hints_at, ordered_roll, played_index,
    HintContext, MoveAnalysis, MovesEvaluation,
};
use crate::text::{quoted, quoted_text, same_text};

verus! {

/// The parameters of an evaluation request.
#[derive(Debug)]
pub struct EvaluateParams {
    pub position_id: String,
    pub match_id: String,
    pub level: String,
    pub level_options: Option<JsonValue>,
    pub die1: Option<i32>,
    pub die2: Option<i32>,
    pub played_move: Option<String>,
}

/// What kind of failure a request is answered with.
#[derive(Debug, Clone, Copy, PartialEq, Eq, Structural)]
pub enum FailureKind {
    ParseError,
    MethodNotFound,
    InvalidParams,
    InternalError,
    UnknownLevel,
    InvalidId,
    MethodNotSupported,
    EvaluationFailed,
}

/// The failure that a request is answered with.
#[derive(Debug)]
pub struct Failure {
    pub kind: FailureKind,
    pub message: String,
}

/// Whether a result is a given failure.
pub open spec fn fails<R>(
    result: Result<R, Failure>,
    kind: FailureKind,
    message: Seq<char>,
) -> bool {
    result matches Err(failure) && failure.kind == kind && failure.message@ == message
}

/// A failure.
fn failure(kind: FailureKind, message: &str) -> (failure: Failure)
    ensures
        failure.kind == kind,
        failure.message@ == message@,
{
    Failure { kind, message: message.to_owned() }
}

/// The kind of failure that a refused level is answered with.
pub open spec fn level_failure_kind(fault: LevelFault) -> FailureKind {
    match fault {
        LevelFault::UnknownLevel(_) => FailureKind::UnknownLevel,
        LevelFault::InvalidOptions(_) => FailureKind::InvalidParams,
        LevelFault::MethodNotSupported { .. } => FailureKind::MethodNotSupported,
    }
}

/// What a refused level is answered.
pub open spec fn level_failure_text(fault: LevelFault) -> Seq<char> {
    match fault {
        LevelFault::UnknownLevel(level) => "unknown level "@ + quoted_text(level),
        LevelFault::InvalidOptions(message) => message,
        LevelFault::MethodNotSupported { level, method } => "level "@ + quoted_text(level)
            + " does not answer "@ + method,
    }
}

/// Answers a refused level.
pub fn level_error_response(error: LevelError) -> (failure: Failure)
    ensures
        failure.kind == level_failure_kind(error@),
        failure.message@ == level_failure_text(error@),
{
    match error {
        LevelError::UnknownLevel(level) => {
            let mut message = "unknown level ".to_owned();
            message.append(quoted(level.as_str()).as_str());
            Failure { kind: FailureKind::UnknownLevel, message }
        },
        LevelError::InvalidOptions(message) => Failure {
            kind: FailureKind::InvalidParams,
            message,
        },
        LevelError::MethodNotSupported { level, method } => {
            let mut message = "level ".to_owned();
            message.append(quoted(level.as_str()).as_str());
            message.append(" does not answer ");
            message.append(method.as_str());
            Failure { kind: FailureKind::MethodNotSupported, message }
        },
    }
}

/// What an evaluation is for.
#[derive(Debug)]
pub enum Task {
    Position,
    Cube,
    Moves { die1: i32, die2: i32, plies: i32 },
    Analysis { die1: i32, die2: i32, plies: i32 },
}

/// An evaluation that has started: what it is for, the level that it runs at,
/// and the native call that it makes.
#[derive(Debug)]
pub struct Evaluation {
    pub task: Task,
    pub resolved: Resolved,
    pub call: NativeCall,
}

/// Whether two dice are a roll.
pub open spec fn is_roll(die1: Option<i32>, die2: Option<i32>) -> bool {
    &&& die1 matches Some(a)
    &&& die2 matches Some(b)
    &&& 1 <= a <= 6
    &&& 1 <= b <= 6
}

/// Whether an evaluation scores the moves of the requested roll.
pub open spec fn starts_scoring(
    evaluation: Evaluation,
    params: EvaluateParams,
    resolved: Resolved,
) -> bool {
    &&& resolved matches Resolved::Ply(depth)
    &&& scores_moves(
        evaluation.call,
        params.position_id@,
        params.match_id@,
        (params.die1->Some_0, params.die2->Some_0),
        depth,
    )
}

/// Whether a result is how a request starts. Identifiers are checked first, then
/// the level, then the dice where moves are asked for; then the native call is
/// that of the method at the resolved level.
pub open spec fn starts(
    result: Result<Evaluation, Failure>,
    engine: Engine,
    method: Seq<char>,
    params: EvaluateParams,
    position_fault: Option<String>,
    match_fault: Option<String>,
) -> bool {
    let position = params.position_id@;
    let match_state = params.match_id@;
    if position_fault is Some {
        fails(result, FailureKind::InvalidId, position_fault->Some_0@)
    } else if match_fault is Some {
        fails(result, FailureKind::InvalidId, match_fault->Some_0@)
    } else if holds_nul(position) || holds_nul(match_state) {
        fails(result, FailureKind::InvalidId, "id contains a NUL byte"@)
    } else {
        match resolution(params.level@, method, params.level_options) {
            Err(fault) => fails(result, level_failure_kind(fault), level_failure_text(fault)),
            Ok(resolved) => if method == methods::EVALUATE_POSITION@ {
                &&& result matches Ok(evaluation)
                &&& evaluation.task is Position
                &&& evaluation.resolved == resolved
                &&& evaluates_position(
                    evaluation.call,
                    engine.rollout_defaults,
                    position,
                    match_state,
                    resolved,
                )
            } else if method == methods::EVALUATE_CUBE@ {
                &&& result matches Ok(evaluation)
                &&& evaluation.task is Cube
                &&& evaluation.resolved == resolved
                &&& resolved matches Resolved::Ply(depth)
                &&& evaluates_cube(evaluation.call, position, match_state, depth)
            } else if method == methods::EVALUATE_MOVES@ || method == methods::ANALYZE_MOVE@ {
                if is_roll(params.die1, params.die2) {
                    &&& result matches Ok(evaluation)
                    &&& evaluation.resolved == resolved
                    &&& starts_scoring(evaluation, params, resolved)
                    &&& evaluation.task == if method == methods::EVALUATE_MOVES@ {
                        Task::Moves {
                            die1: params.die1->Some_0,
                            die2: params.die2->Some_0,
                            plies: resolved.stamp() as i32,
                        }
                    } else {
                        Task::Analysis {
                            die1: params.die1->Some_0,
                            die2: params.die2->Some_0,
                            plies: resolved.stamp() as i32,
                        }
                    }
                } else {
                    fails(
                        result,
                        FailureKind::InvalidParams,
                        "die1 and die2 are required and must be 1-6"@,
                    )
                }
            } else {
                fails(
                    result,
                    FailureKind::MethodNotFound,
                    "unknown method "@ + quoted_text(method),
                )
            },
        }
    }
}

/// Starts an evaluation: [`starts`]. The faults are what is wrong with the
/// identifiers, where something is.
pub fn begin_evaluation(
    engine: &Engine,
    method: &str,
    params: &EvaluateParams,
    position_fault: Option<String>,
    match_fault: Option<String>,
) -> (result: Result<Evaluation, Failure>)
    ensures
        starts(result, *engine, method@, *params, position_fault, match_fault),
{
    if let Some(message) = position_fault {
        return Err(Failure { kind: FailureKind::InvalidId, message });
    }
    if let Some(message) = match_fault {
        return Err(Failure { kind: FailureKind::InvalidId, message });
    }
    let position_id = params.position_id.as_str();
    let match_id = params.match_id.as_str();
    if has_nul(position_id) || has_nul(match_id) {
        return Err(failure(FailureKind::InvalidId, "id contains a NUL byte"));
    }
    let resolved = match resolve_level(params.level.as_str(), method, params.level_options.as_ref())
    {
        Ok(resolved) => resolved,
        Err(error) => return Err(level_error_response(error)),
    };
    let plies = resolved.plies_stamp();
    if same_text(method, methods::EVALUATE_POSITION) {
        let call = engine.evaluate_position(position_id, match_id, &resolved);
        return Ok(Evaluation { task: Task::Position, resolved, call });
    }
    let depth: u32 = match resolved {
        Resolved::Ply(depth) => depth,
        Resolved::Rollout(_) => {
            // A rollout is resolved for positions alone.
            assert(false);
            0
        },
    };
    if same_text(method, methods::EVALUATE_CUBE) {
        let call = engine.evaluate_cube(position_id, match_id, depth);
        return Ok(Evaluation { task: Task::Cube, resolved, call });
    }
    let moves = same_text(method, methods::EVALUATE_MOVES);
    if moves || same_text(method, methods::ANALYZE_MOVE) {
        if let (Some(die1), Some(die2)) = (params.die1, params.die2) {
            if 1 <= die1 && die1 <= 6 && 1 <= die2 && die2 <= 6 {
                let call = engine.scored_moves(position_id, match_id, die1, die2, depth);
                let task = if moves {
                    Task::Moves { die1, die2, plies }
                } else {
                    Task::Analysis { die1, die2, plies }
                };
                return Ok(Evaluation { task, resolved, call });
            }
        }
        return Err(
            failure(FailureKind::InvalidParams, "die1 and die2 are required and must be 1-6"),
        );
    }
    let mut message = "unknown method ".to_owned();
    message.append(quoted(method).as_str());
    Err(Failure { kind: FailureKind::MethodNotFound, message })
}

/// Whether a result is the answer to a position's evaluation.
pub open spec fn answers_position<T>(
    result: Result<PositionEvaluation<Figure<T>>, Failure>,
    outcome: Result<[T; 7], GnubgApiError>,
) -> bool {
    match outcome {
        Ok(output) => result matches Ok(payload) && payload == position_figures(output@),
        Err(error) => fails(result, FailureKind::EvaluationFailed, error_text(error)),
    }
}

/// Answers a position's evaluation: [`answers_position`].
pub fn finish_position<T: Copy>(outcome: Result<[T; 7], GnubgApiError>) -> (result: Result<
    PositionEvaluation<Figure<T>>,
    Failure,
>)
    ensures
        answers_position(result, outcome),
{
    match outcome {
        Ok(output) => Ok(position_payload(&output)),
        Err(error) => Err(
            Failure { kind: FailureKind::EvaluationFailed, message: error.to_text() },
        ),
    }
}

/// Whether a result is the answer to a cube decision's evaluation.
pub open spec fn answers_cube<T>(
    result: Result<CubeEvaluation<Figure<T>>, Failure>,
    outcome: Result<CubeDecisionResult<T>, GnubgApiError>,
) -> bool {
    match outcome {
        Ok(decided) => match decision_of(decided.decision) {
            Some((action, too_good)) => result matches Ok(payload) && payload == cube_figures(
                decided,
                action,
                too_good,
            ),
            None => fails(
                result,
                FailureKind::EvaluationFailed,
                unrecognised_decision(decided.decision),
            ),
        },
        Err(error) => fails(result, FailureKind::EvaluationFailed, error_text(error)),
    }
}

/// Answers a cube decision's evaluation: [`answers_cube`].
pub fn finish_cube<T: Copy>(outcome: Result<CubeDecisionResult<T>, GnubgApiError>) -> (result:
    Result<CubeEvaluation<Figure<T>>, Failure>)
    ensures
        answers_cube(result, outcome),
{
    match outcome {
        Ok(decided) => match cube_payload(&decided) {
            Ok(payload) => Ok(payload),
            Err(message) => Err(Failure { kind: FailureKind::EvaluationFailed, message }),
        },
        Err(error) => Err(
            Failure { kind: FailureKind::EvaluationFailed, message: error.to_text() },
        ),
    }
}

/// What the hints of a request share.
pub open spec fn hint_context(
    position: String,
    match_id: Seq<char>,
    roll: (i32, i32),
    plies: i32,
    evaluated: Seq<char>,
) -> HintContext {
    HintContext {
        position: position@,
        match_state: match_id,
        roll: ordered_roll(roll.0, roll.1),
        plies,
        evaluated,
    }
}

/// Whether a result is the answer to a request for a roll's moves.
pub open spec fn answers_moves<T>(
    result: Result<MovesEvaluation<Figure<T>>, Failure>,
    outcome: Result<Vec<ScoredMove<T>>, GnubgApiError>,
    storage_id: Result<String, String>,
    match_id: Seq<char>,
    roll: (i32, i32),
    plies: i32,
    evaluated: Seq<char>,
) -> bool {
    match outcome {
        Err(error) => fails(result, FailureKind::EvaluationFailed, error_text(error)),
        Ok(scored) => match storage_id {
            Err(fault) => fails(result, FailureKind::EvaluationFailed, fault@),
            Ok(position) => result matches Ok(moves) && are_hints(
                moves,
                scored@,
                hint_context(position, match_id, roll, plies, evaluated),
            ),
        },
    }
}

/// Whether the moves that a call gave can be written.
pub open spec fn writable<T>(outcome: Result<Vec<ScoredMove<T>>, GnubgApiError>) -> bool {
    outcome matches Ok(scored) ==> all_numbered(scored@)
}

/// Answers a request for a roll's moves as evaluated at a given time:
/// [`answers_moves`].
pub fn finish_moves_at<T: Copy>(
    outcome: Result<Vec<ScoredMove<T>>, GnubgApiError>,
    storage_id: Result<String, String>,
    match_id: &str,
    die1: i32,
    die2: i32,
    plies: i32,
    evaluated_utc: &str,
) -> (result: Result<MovesEvaluation<Figure<T>>, Failure>)
    requires
        writable(outcome),
    ensures
        answers_moves(
            result,
            outcome,
            storage_id,
            match_id@,
            (die1, die2),
            plies,
            evaluated_utc@,
        ),
{
    match outcome {
        Err(error) => Err(
            Failure { kind: FailureKind::EvaluationFailed, message: error.to_text() },
        ),
        Ok(scored) => match move_hints_at(
            scored.as_slice(),
            storage_id,
            match_id,
            die1,
            die2,
            plies,
            evaluated_utc,
        ) {
            Ok(moves) => Ok(moves),
            Err(message) => Err(Failure { kind: FailureKind::EvaluationFailed, message }),
        },
    }
}

/// Answers a request for a roll's moves as evaluated now: [`answers_moves`], at
/// some moment.
pub fn finish_moves<T: Copy>(
    outcome: Result<Vec<ScoredMove<T>>, GnubgApiError>,
    storage_id: Result<String, String>,
    match_id: &str,
    die1: i32,
    die2: i32,
    plies: i32,
) -> (result: Result<MovesEvaluation<Figure<T>>, Failure>)
    requires
        writable(outcome),
    ensures
        exists|nanos: i128|
            answers_moves(
                result,
                outcome,
                storage_id,
                match_id@,
                (die1, die2),
                plies,
                #[trigger] utc_text(nanos as int),
            ),
{
    match outcome {
        Err(error) => {
            let failed: Result<MovesEvaluation<Figure<T>>, Failure> = Err(
                Failure { kind: FailureKind::EvaluationFailed, message: error.to_text() },
            );
            assert(answers_moves(
                failed,
                outcome,
                storage_id,
                match_id@,
                (die1, die2),
                plies,
                utc_text(0i128 as int),
            ));
            failed
        },
        Ok(scored) => match move_hints(
            scored.as_slice(),
            storage_id,
            match_id,
            die1,
            die2,
            plies,
        ) {
            Ok(moves) => Ok(moves),
            Err(message) => Err(Failure { kind: FailureKind::EvaluationFailed, message }),
        },
    }
}

/// Whether a result is the answer to a request to analyze a move. A request that
/// names no move is refused whatever the call gave.
pub open spec fn answers_analysis<T>(
    result: Result<MoveAnalysis<Figure<T>>, Failure>,
    outcome: Result<Vec<ScoredMove<T>>, GnubgApiError>,
    storage_id: Result<String, String>,
    match_id: Seq<char>,
    roll: (i32, i32),
    plies: i32,
    played: Option<String>,
    evaluated: Seq<char>,
) -> bool {
    match played {
        None => fails(result, FailureKind::InvalidParams, "analyzeMove requires a move"@),
        Some(played) => match outcome {
            Err(error) => fails(result, FailureKind::EvaluationFailed, error_text(error)),
            Ok(scored) => match storage_id {
                Err(fault) => fails(result, FailureKind::EvaluationFailed, fault@),
                Ok(position) => if scored@.len() == 0 {
                    fails(result, FailureKind::EvaluationFailed, "no ranked alternatives"@)
                } else {
                    &&& result matches Ok(analysis)
                    &&& exists|moves: MovesEvaluation<Figure<T>>|
                        #[trigger] are_hints(
                            moves,
                            scored@,
                            hint_context(position, match_id, roll, plies, evaluated),
                        ) && analysis.best == moves.alternatives@[0] && analysis.played
                            == moves.alternatives@[played_index(moves.alternatives@, played@)]
                },
            },
        },
    }
}

/// Answers a request to analyze a move as evaluated at a given time:
/// [`answers_analysis`].
pub fn finish_analysis_at<T: Copy>(
    outcome: Result<Vec<ScoredMove<T>>, GnubgApiError>,
    storage_id: Result<String, String>,
    match_id: &str,
    die1: i32,
    die2: i32,
    plies: i32,
    played_move: Option<String>,
    evaluated_utc: &str,
) -> (result: Result<MoveAnalysis<Figure<T>>, Failure>)
    requires
        writable(outcome),
    ensures
        answers_analysis(
            result,
            outcome,
            storage_id,
            match_id@,
            (die1, die2),
            plies,
            played_move,
            evaluated_utc@,
        ),
{
    if played_move.is_none() {
        return Err(failure(FailureKind::InvalidParams, "analyzeMove requires a move"));
    }
    let answered = finish_moves_at(
        outcome,
        storage_id,
        match_id,
        die1,
        die2,
        plies,
        evaluated_utc,
    );
    let ghost context = hint_context(
        storage_id->Ok_0,
        match_id@,
        (die1, die2),
        plies,
        evaluated_utc@,
    );
    let ghost found = answered;
    let result = analyze_answer(answered, played_move);
    assert(found is Ok ==> are_hints(found->Ok_0, outcome->Ok_0@, context));
    result
}

/// Analyzes a played move among the moves that a request was answered.
fn analyze_answer<F: Copy>(
    answered: Result<MovesEvaluation<F>, Failure>,
    played_move: Option<String>,
) -> (result: Result<MoveAnalysis<F>, Failure>)
    requires
        played_move is Some,
    ensures
        match answered {
            Err(failure) => result == Err::<MoveAnalysis<F>, Failure>(failure),
            Ok(moves) => if moves.alternatives@.len() == 0 {
                fails(result, FailureKind::EvaluationFailed, "no ranked alternatives"@)
            } else {
                &&& result matches Ok(analysis)
                &&& analysis.best == moves.alternatives@[0]
                &&& analysis.played == moves.alternatives@[played_index(
                    moves.alternatives@,
                    played_move->Some_0@,
                )]
            },
        },
{
    match (answered, played_move) {
        (Err(failure), _) => Err(failure),
        (Ok(_), None) => Err(failure(FailureKind::InvalidParams, "analyzeMove requires a move")),
        (Ok(moves), Some(played)) => match analyze_payload(moves, played.as_str()) {
            Ok(analysis) => Ok(analysis),
            Err(message) => Err(Failure { kind: FailureKind::EvaluationFailed, message }),
        },
    }
}

/// Answers a request to analyze a move as evaluated now: [`answers_analysis`],
/// at some moment.
pub fn finish_analysis<T: Copy>(
    outcome: Result<Vec<ScoredMove<T>>, GnubgApiError>,
    storage_id: Result<String, String>,
    match_id: &str,
    die1: i32,
    die2: i32,
    plies: i32,
    played_move: Option<String>,
) -> (result: Result<MoveAnalysis<Figure<T>>, Failure>)
    requires
        writable(outcome),
    ensures
        exists|nanos: i128|
            answers_analysis(
                result,
                outcome,
                storage_id,
                match_id@,
                (die1, die2),
                plies,
                played_move,
                #[trigger] utc_text(nanos as int),
            ),
{
    if played_move.is_none() {
        let refused: Result<MoveAnalysis<Figure<T>>, Failure> = Err(
            failure(FailureKind::InvalidParams, "analyzeMove requires a move"),
        );
        assert(answers_analysis(
            refused,
            outcome,
            storage_id,
            match_id@,
            (die1, die2),
            plies,
            played_move,
            utc_text(0i128 as int),
        ));
        return refused;
    }
    let answered = finish_moves(outcome, storage_id, match_id, die1, die2, plies);
    let ghost found = answered;
    let result = analyze_answer(answered, played_move);
    proof {
        let nanos = choose|nanos: i128|
            answers_moves(
                found,
                outcome,
                storage_id,
                match_id@,
                (die1, die2),
                plies,
                #[trigger] utc_text(nanos as int),
            );
        let evaluated = utc_text(nanos as int);
        let context = hint_context(storage_id->Ok_0, match_id@, (die1, die2), plies, evaluated);
        assert(found is Ok ==> are_hints(found->Ok_0, outcome->Ok_0@, context));
        assert(answers_analysis(
            result,
            outcome,
            storage_id,
            match_id@,
            (die1, die2),
            plies,
            played_move,
            evaluated,
        ));
    }
    result
}

} // verus!
