//! What holds of evaluation requests as a whole.

use vstd::prelude::*;

use crate::engine::{
    evaluates_cube, holds_nul, levels, scores_moves, Engine, LevelFault, NativeCall, Resolved,
};
use crate::evaluation::{
    answers_analysis, answers_cube, answers_moves, answers_position, hint_context,
    level_failure_kind, level_failure_text, starts, EvaluateParams, Evaluation, Failure,
    FailureKind, Task,
};
use crate::ffi::{CubeDecisionResult, GnubgApiError, RolloutSettings, ScoredMove};
use crate::json::JsonValue;
use crate::level_laws::{
    goes_with, is_level, law_cube_at_even_plies, law_moves_up_to_three_plies, law_option_values,
    law_other_levels, law_ply_levels, law_rollout_level, law_rollout_settings,
    law_rollouts_for_positions, lemma_level_ids_differ, names_depth, sets_nothing, settings_follow,
};
use crate::mapping::{CubeAction, CubeEvaluation, Figure, PositionEvaluation};
use crate::methods;
use crate::move_laws::{
    cube_slots, is_ranked, larger, law_cube_slots, law_decision_table, law_played_is_first_match,
    law_position_slots, law_ranked_moves, position_slots, recommends_double, smaller, too_good,
};
use crate::moves::{are_hints, played_index, MoveAnalysis, MovesEvaluation};
use crate::notation::{normalized, notation};
use crate::options::read_options;
use crate::text::{quoted_text, signed_decimal};

verus! {

/// The native library is asked about the identifiers of the request and no
/// others.
pub proof fn law_call_is_about_the_request(
    result: Result<Evaluation, Failure>,
    engine: Engine,
    method: Seq<char>,
    params: EvaluateParams,
    position_fault: Option<String>,
    match_fault: Option<String>,
)
    requires
        starts(result, engine, method, params, position_fault, match_fault),
        result is Ok,
    ensures
        match result->Ok_0.call {
            NativeCall::EvaluatePosition { position_id, match_id, .. } => position_id@
                == params.position_id@ && match_id@ == params.match_id@,
            NativeCall::Rollout { position_id, match_id, .. } => position_id@
                == params.position_id@ && match_id@ == params.match_id@,
            NativeCall::EvaluateCube { position_id, match_id, .. } => position_id@
                == params.position_id@ && match_id@ == params.match_id@,
            NativeCall::ScoreMoves { position_id, match_id, .. } => position_id@
                == params.position_id@ && match_id@ == params.match_id@,
        },
{
}

/// The native library is asked for cube decisions at 0, 2 and 4 plies alone, for
/// the moves of a roll at 0 to 3 plies alone, and for rollouts of positions
/// alone.
pub proof fn law_calls_keep_the_levels(
    result: Result<Evaluation, Failure>,
    engine: Engine,
    method: Seq<char>,
    params: EvaluateParams,
    position_fault: Option<String>,
    match_fault: Option<String>,
)
    requires
        starts(result, engine, method, params, position_fault, match_fault),
        result is Ok,
    ensures
        match result->Ok_0.call {
            NativeCall::EvaluatePosition { n_plies, .. } => method == methods::EVALUATE_POSITION@
                && n_plies <= 4,
            NativeCall::Rollout { .. } => method == methods::EVALUATE_POSITION@ && params.level@
                == levels::ROLLOUT@,
            NativeCall::EvaluateCube { n_plies, .. } => method == methods::EVALUATE_CUBE@
                && n_plies <= 4 && n_plies % 2 == 0,
            NativeCall::ScoreMoves { die1, die2, n_plies, .. } => {
                &&& method == methods::EVALUATE_MOVES@ || method == methods::ANALYZE_MOVE@
                &&& n_plies <= 3
                &&& 1 <= die1 <= 6
                &&& 1 <= die2 <= 6
            },
        },
{
    methods::lemma_methods_differ();
    law_cube_at_even_plies(params.level@, params.level_options);
    law_rollouts_for_positions(params.level@, method, params.level_options);
    if method == methods::EVALUATE_MOVES@ || method == methods::ANALYZE_MOVE@ {
        law_moves_up_to_three_plies(params.level@, method, params.level_options);
    }
}

/// Moves are stamped with the depth at which they were scored.
pub proof fn law_moves_stamped_with_their_depth(
    result: Result<Evaluation, Failure>,
    engine: Engine,
    method: Seq<char>,
    params: EvaluateParams,
    position_fault: Option<String>,
    match_fault: Option<String>,
)
    requires
        starts(result, engine, method, params, position_fault, match_fault),
        result is Ok,
    ensures
        match (result->Ok_0.task, result->Ok_0.call) {
            (Task::Moves { plies, .. }, NativeCall::ScoreMoves { n_plies, .. }) => plies == n_plies,
            (Task::Analysis { plies, .. }, NativeCall::ScoreMoves { n_plies, .. }) => plies
                == n_plies,
            (Task::Moves { .. }, _) => false,
            (Task::Analysis { .. }, _) => false,
            (Task::Cube, NativeCall::EvaluateCube { .. }) => true,
            (Task::Cube, _) => false,
            (Task::Position, NativeCall::EvaluatePosition { .. }) => true,
            (Task::Position, NativeCall::Rollout { .. }) => true,
            (Task::Position, _) => false,
        },
{
    methods::lemma_methods_differ();
    if method == methods::EVALUATE_MOVES@ || method == methods::ANALYZE_MOVE@ {
        law_moves_up_to_three_plies(params.level@, method, params.level_options);
    }
}

/// An evaluation method is never answered as an unknown method, and any other
/// method never starts an evaluation.
pub proof fn law_methods_known(
    result: Result<Evaluation, Failure>,
    engine: Engine,
    method: Seq<char>,
    params: EvaluateParams,
    position_fault: Option<String>,
    match_fault: Option<String>,
)
    requires
        starts(result, engine, method, params, position_fault, match_fault),
    ensures
        methods::is_evaluation(method) ==> !(result matches Err(failure) && failure.kind
            == FailureKind::MethodNotFound),
        !methods::is_evaluation(method) ==> result is Err,
{
}

/// An identifier that is wrong, or that holds a NUL, is answered before anything
/// else is looked at.
pub proof fn law_wrong_ids_first(
    result: Result<Evaluation, Failure>,
    engine: Engine,
    method: Seq<char>,
    params: EvaluateParams,
    position_fault: Option<String>,
    match_fault: Option<String>,
)
    requires
        starts(result, engine, method, params, position_fault, match_fault),
        position_fault is Some || match_fault is Some || holds_nul(params.position_id@)
            || holds_nul(params.match_id@),
    ensures
        result matches Err(failure) && failure.kind == FailureKind::InvalidId,
{
}

/// Whether a result is a refusal of a kind with a message.
pub open spec fn refused<R>(
    result: Result<R, Failure>,
    kind: FailureKind,
    message: Seq<char>,
) -> bool {
    &&& result is Err
    &&& result->Err_0.kind == kind
    &&& result->Err_0.message@ == message
}

/// A request for moves or for the analysis of a move scores the moves of the
/// roll that it names: the first die of the call is the request's first die, the
/// second its second, and the evaluation keeps the dice of its call.
pub proof fn law_scores_the_requested_roll(
    result: Result<Evaluation, Failure>,
    engine: Engine,
    method: Seq<char>,
    params: EvaluateParams,
    position_fault: Option<String>,
    match_fault: Option<String>,
)
    requires
        starts(result, engine, method, params, position_fault, match_fault),
        result is Ok,
        method == "evaluateMoves"@ || method == "analyzeMove"@,
    ensures
        result->Ok_0.call matches NativeCall::ScoreMoves { die1, die2, n_plies, .. } && params.die1
            == Some(die1) && params.die2 == Some(die2) && 1 <= die1 <= 6 && 1 <= die2 <= 6
            && names_depth(params.level@, n_plies as int) && (method == "evaluateMoves"@
            ==> result->Ok_0.task == (Task::Moves { die1, die2, plies: n_plies as i32 })) && (method
            == "analyzeMove"@ ==> result->Ok_0.task == (Task::Analysis {
            die1,
            die2,
            plies: n_plies as i32,
        })),
{
    law_call_of_the_request(result, engine, method, params, position_fault, match_fault);
    methods::lemma_methods_differ();
}

/// The native call of a request is that of its method, at the depth that its
/// level names, about its own position and match, and with its own dice; a
/// rollout's settings are the request's options over the engine's defaults.
pub proof fn law_call_of_the_request(
    result: Result<Evaluation, Failure>,
    engine: Engine,
    method: Seq<char>,
    params: EvaluateParams,
    position_fault: Option<String>,
    match_fault: Option<String>,
)
    requires
        starts(result, engine, method, params, position_fault, match_fault),
        result is Ok,
    ensures
        match result->Ok_0.call {
            NativeCall::EvaluatePosition { position_id, match_id, n_plies } => {
                &&& method == "evaluatePosition"@
                &&& position_id@ == params.position_id@
                &&& match_id@ == params.match_id@
                &&& names_depth(params.level@, n_plies as int)
                &&& result->Ok_0.task is Position
                &&& result->Ok_0.resolved == Resolved::Ply(n_plies)
            },
            NativeCall::Rollout { position_id, match_id, settings } => {
                &&& method == "evaluatePosition"@
                &&& position_id@ == params.position_id@
                &&& match_id@ == params.match_id@
                &&& params.level@ == "rollout"@
                &&& result->Ok_0.task is Position
                &&& result->Ok_0.resolved matches Resolved::Rollout(options)
                &&& settings_follow(settings, options, engine.rollout_defaults)
                &&& params.level_options is None ==> sets_nothing(options)
                &&& params.level_options matches Some(value) ==> read_options(value) == Ok::<
                    _,
                    Seq<char>,
                >(options)
            },
            NativeCall::EvaluateCube { position_id, match_id, n_plies } => {
                &&& method == "evaluateCube"@
                &&& position_id@ == params.position_id@
                &&& match_id@ == params.match_id@
                &&& names_depth(params.level@, n_plies as int)
                &&& n_plies == 0 || n_plies == 2 || n_plies == 4
                &&& result->Ok_0.task is Cube
                &&& result->Ok_0.resolved == Resolved::Ply(n_plies)
            },
            NativeCall::ScoreMoves { position_id, match_id, die1, die2, n_plies } => {
                &&& position_id@ == params.position_id@
                &&& match_id@ == params.match_id@
                &&& names_depth(params.level@, n_plies as int)
                &&& n_plies <= 3
                &&& params.die1 == Some(die1) && 1 <= die1 <= 6
                &&& params.die2 == Some(die2) && 1 <= die2 <= 6
                &&& result->Ok_0.resolved == Resolved::Ply(n_plies)
                &&& match result->Ok_0.task {
                    Task::Moves { die1: first, die2: second, plies } => method
                        == "evaluateMoves"@ && first == die1 && second == die2 && plies == n_plies,
                    Task::Analysis { die1: first, die2: second, plies } => method
                        == "analyzeMove"@ && first == die1 && second == die2 && plies == n_plies,
                    _ => false,
                }
            },
        },
{
    methods::lemma_methods_differ();
    let level = params.level@;
    let options = params.level_options;
    if level == "rollout"@ {
        law_rollout_level(method, options);
        if let NativeCall::Rollout { .. } = result->Ok_0.call {
            let set = result->Ok_0.resolved->Rollout_0;
            law_rollout_settings(
                result->Ok_0.call,
                engine.rollout_defaults,
                params.position_id@,
                params.match_id@,
                set,
            );
        }
    } else if is_level(level) {
        let depth = choose|depth: int| names_depth(level, depth);
        assert(names_depth(level, depth));
        law_ply_levels(level, depth as u32, method, options);
    } else {
        law_other_levels(level, method, options);
    }
}

/// Whether the identifiers of a request are right: nothing was found wrong with
/// them, and neither holds a NUL.
pub open spec fn ids_right(
    params: EvaluateParams,
    position_fault: Option<String>,
    match_fault: Option<String>,
) -> bool {
    &&& position_fault is None
    &&& match_fault is None
    &&& !params.position_id@.contains('\0')
    &&& !params.match_id@.contains('\0')
}

/// Whether a request names a roll: two dice from 1 to 6.
pub open spec fn names_roll(params: EvaluateParams) -> bool {
    &&& params.die1 is Some && 1 <= params.die1->Some_0 <= 6
    &&& params.die2 is Some && 1 <= params.die2->Some_0 <= 6
}

/// Whether the level of a request takes its method and its options.
pub open spec fn level_takes(params: EvaluateParams, method: Seq<char>) -> bool {
    ||| exists|depth: int|
        #[trigger] names_depth(params.level@, depth) && goes_with(depth, method)
            && params.level_options is None
    ||| params.level@ == "rollout"@ && method == "evaluatePosition"@ && (params.level_options
        matches Some(value) ==> read_options(value) is Ok)
}

/// Whether a method is one of the four evaluations.
pub open spec fn is_method(method: Seq<char>) -> bool {
    ||| method == "evaluatePosition"@
    ||| method == "evaluateCube"@
    ||| method == "evaluateMoves"@
    ||| method == "analyzeMove"@
}

/// A request starts exactly when its identifiers are right, its level takes its
/// method and options, the method is an evaluation, and the roll is there where
/// moves are asked for.
pub proof fn law_starts_exactly_when(
    result: Result<Evaluation, Failure>,
    engine: Engine,
    method: Seq<char>,
    params: EvaluateParams,
    position_fault: Option<String>,
    match_fault: Option<String>,
)
    requires
        starts(result, engine, method, params, position_fault, match_fault),
    ensures
        result is Ok <==> ids_right(params, position_fault, match_fault) && level_takes(
            params,
            method,
        ) && is_method(method) && (method == "evaluateMoves"@ || method == "analyzeMove"@
            ==> names_roll(params)),
{
    methods::lemma_methods_differ();
    lemma_level_ids_differ();
    let level = params.level@;
    let options = params.level_options;
    lemma_one_depth(level);
    if level == "rollout"@ {
        law_rollout_level(method, options);
    } else if is_level(level) {
        let depth = choose|depth: int| names_depth(level, depth);
        assert(names_depth(level, depth));
        law_ply_levels(level, depth as u32, method, options);
    } else {
        law_other_levels(level, method, options);
    }
}

/// A level names one depth at most, and the rollout none.
pub proof fn lemma_one_depth(level: Seq<char>)
    ensures
        forall|a: int, b: int|
            #[trigger] names_depth(level, a) && #[trigger] names_depth(level, b) ==> a == b,
        level == "rollout"@ ==> forall|a: int| !names_depth(level, a),
{
    reveal_strlit("0ply");
    reveal_strlit("1ply");
    reveal_strlit("2ply");
    reveal_strlit("3ply");
    reveal_strlit("4ply");
    reveal_strlit("rollout");
    assert("0ply"@[0] == '0' && "1ply"@[0] == '1' && "2ply"@[0] == '2' && "3ply"@[0] == '3'
        && "4ply"@[0] == '4' && "rollout"@[0] == 'r');
}

/// A request that does not start is refused with the first thing that is wrong:
/// the position's identifier, the match's, a NUL in either, an unknown level,
/// options at a level that takes none, a method that the level does not answer,
/// options that cannot be read, a missing roll, an unknown method.
pub proof fn law_refusals(
    result: Result<Evaluation, Failure>,
    engine: Engine,
    method: Seq<char>,
    params: EvaluateParams,
    position_fault: Option<String>,
    match_fault: Option<String>,
    depth: int,
)
    requires
        starts(result, engine, method, params, position_fault, match_fault),
    ensures
        position_fault is Some ==> refused(
            result,
            FailureKind::InvalidId,
            position_fault->Some_0@,
        ),
        position_fault is None && match_fault is Some ==> refused(
            result,
            FailureKind::InvalidId,
            match_fault->Some_0@,
        ),
        position_fault is None && match_fault is None && (params.position_id@.contains('\0')
            || params.match_id@.contains('\0')) ==> refused(
            result,
            FailureKind::InvalidId,
            "id contains a NUL byte"@,
        ),
        ids_right(params, position_fault, match_fault) && !is_level(params.level@) ==> refused(
            result,
            FailureKind::UnknownLevel,
            "unknown level "@ + quoted_text(params.level@),
        ),
        ids_right(params, position_fault, match_fault) && names_depth(params.level@, depth)
            && params.level_options is Some ==> refused(
            result,
            FailureKind::InvalidParams,
            "level "@ + quoted_text(params.level@) + " is not configurable"@,
        ),
        ids_right(params, position_fault, match_fault) && (names_depth(params.level@, depth)
            && params.level_options is None && !goes_with(depth, method) || params.level@
            == "rollout"@ && method != "evaluatePosition"@) ==> refused(
            result,
            FailureKind::MethodNotSupported,
            "level "@ + quoted_text(params.level@) + " does not answer "@ + method,
        ),
        ids_right(params, position_fault, match_fault) && params.level@ == "rollout"@ && method
            == "evaluatePosition"@ ==> (params.level_options matches Some(value) ==> (read_options(
            value,
        ) matches Err(message) ==> refused(result, FailureKind::InvalidParams, message))),
        ids_right(params, position_fault, match_fault) && level_takes(params, method) && (method
            == "evaluateMoves"@ || method == "analyzeMove"@) && !names_roll(params) ==> refused(
            result,
            FailureKind::InvalidParams,
            "die1 and die2 are required and must be 1-6"@,
        ),
        ids_right(params, position_fault, match_fault) && level_takes(params, method)
            && !is_method(method) ==> refused(
            result,
            FailureKind::MethodNotFound,
            "unknown method "@ + quoted_text(method),
        ),
{
    methods::lemma_methods_differ();
    lemma_level_ids_differ();
    let level = params.level@;
    let options = params.level_options;
    lemma_one_depth(level);
    if level == "rollout"@ {
        law_rollout_level(method, options);
    } else if is_level(level) {
        let named = choose|depth: int| names_depth(level, depth);
        assert(names_depth(level, named));
        law_ply_levels(level, named as u32, method, options);
    } else {
        law_other_levels(level, method, options);
    }
}

/// What a refused level is answered: each refusal has its own kind, and says the
/// level, or the message, or the level and the method.
pub proof fn law_level_refusals(level: Seq<char>, method: Seq<char>, message: Seq<char>)
    ensures
        level_failure_kind(LevelFault::UnknownLevel(level)) == FailureKind::UnknownLevel,
        level_failure_text(LevelFault::UnknownLevel(level)) == "unknown level "@ + quoted_text(
            level,
        ),
        level_failure_kind(LevelFault::InvalidOptions(message)) == FailureKind::InvalidParams,
        level_failure_text(LevelFault::InvalidOptions(message)) == message,
        level_failure_kind(LevelFault::MethodNotSupported { level, method })
            == FailureKind::MethodNotSupported,
        level_failure_text(LevelFault::MethodNotSupported { level, method }) == "level "@
            + quoted_text(level) + " does not answer "@ + method,
{
}

/// Whether the native settings hold what an entry of a request's options says.
pub open spec fn setting_holds(
    settings: RolloutSettings,
    key: Seq<char>,
    value: JsonValue,
) -> bool {
    match value {
        JsonValue::Unsigned(n) => {
            &&& key == "trials"@ ==> settings.n_trials == n
            &&& key == "chequerPlies"@ ==> settings.chequer_plies == n
            &&& key == "cubePlies"@ ==> settings.cube_plies == n
            &&& key == "seed"@ ==> settings.seed == n
            &&& key == "truncatePlies"@ ==> settings.truncate_plies == n
        },
        JsonValue::Bool(on) => {
            let native: i32 = if on {
                1
            } else {
                0
            };
            &&& key == "cubeful"@ ==> settings.cubeful == native
            &&& key == "varianceReduction"@ ==> settings.variance_reduction == native
            &&& key == "truncate"@ ==> settings.truncate == native
        },
        _ => true,
    }
}

/// What a request writes among its options is what the rollout is run with: each
/// number under its name, and each flag as 1 or 0.
pub proof fn law_rollout_request(
    result: Result<Evaluation, Failure>,
    engine: Engine,
    method: Seq<char>,
    params: EvaluateParams,
    position_fault: Option<String>,
    match_fault: Option<String>,
    entries: Vec<(String, JsonValue)>,
)
    requires
        starts(result, engine, method, params, position_fault, match_fault),
        result is Ok,
        params.level@ == "rollout"@,
        params.level_options == Some(JsonValue::Object(entries)),
    ensures
        result->Ok_0.call matches NativeCall::Rollout { settings, .. } && forall|i: int|
            0 <= i < entries@.len() ==> setting_holds(
                settings,
                (#[trigger] entries@[i]).0@,
                entries@[i].1,
            ),
{
    law_call_of_the_request(result, engine, method, params, position_fault, match_fault);
    lemma_one_depth(params.level@);
    law_rollout_level(method, params.level_options);
    let options = result->Ok_0.resolved->Rollout_0;
    law_option_values(entries, options);
}

/// How a failed native call is answered.
pub open spec fn native_failure(error: GnubgApiError) -> Seq<char> {
    "gnubgapi error "@ + signed_decimal(error.code as int) + ": "@ + error.message@
}

/// The answer to a position holds the native numbers slot by slot: the five
/// probabilities in slots 0 to 4 (win, win gammon, win backgammon, lose gammon,
/// lose backgammon), the equity in slot 5 and the cubeful equity in slot 6. A
/// native call that failed is answered as a failed evaluation.
pub proof fn law_position_answer<T>(
    result: Result<PositionEvaluation<Figure<T>>, Failure>,
    outcome: Result<[T; 7], GnubgApiError>,
)
    requires
        answers_position(result, outcome),
    ensures
        outcome matches Ok(output) ==> (result matches Ok(payload) && position_slots(
            payload,
            output@,
        )),
        outcome matches Err(error) ==> refused(
            result,
            FailureKind::EvaluationFailed,
            native_failure(error),
        ),
{
    if let Ok(output) = outcome {
        law_position_slots(output@);
    }
}

/// The answer to a cube request recommends a double exactly for the decisions
/// that double, is too good to double only without one, and holds the native
/// numbers slot by slot. A decision that there is not, and a native call that
/// failed, are answered as failed evaluations.
pub proof fn law_cube_answer<T>(
    result: Result<CubeEvaluation<Figure<T>>, Failure>,
    outcome: Result<CubeDecisionResult<T>, GnubgApiError>,
)
    requires
        answers_cube(result, outcome),
    ensures
        outcome matches Ok(decided) ==> (result is Ok <==> 0 <= decided.decision <= 20),
        outcome matches Ok(decided) ==> (result matches Ok(payload) ==> {
            &&& payload.recommended_action == CubeAction::Double <==> recommends_double(
                decided.decision as int,
            )
            &&& payload.too_good_to_double <==> too_good(decided.decision as int)
            &&& !(payload.too_good_to_double && payload.recommended_action == CubeAction::Double)
            &&& cube_slots(payload, decided)
        }),
        outcome matches Ok(decided) ==> (!(0 <= decided.decision <= 20) ==> refused(
            result,
            FailureKind::EvaluationFailed,
            "unrecognised cubedecision value "@ + signed_decimal(decided.decision as int)
                + " from gnubg"@,
        )),
        outcome matches Err(error) ==> refused(
            result,
            FailureKind::EvaluationFailed,
            native_failure(error),
        ),
{
    if let Ok(decided) = outcome {
        law_decision_table(decided.decision);
        if result is Ok {
            law_cube_slots(
                decided,
                result->Ok_0.recommended_action,
                result->Ok_0.too_good_to_double,
            );
        }
    }
}

/// The answer to a request for moves ranks every scored move in its order, each
/// with its own numbers and its error against the first, under the roll with the
/// smaller die first. A failed native call, and a position without an
/// identifier to be stored under, are answered as failed evaluations.
pub proof fn law_moves_answer<T>(
    result: Result<MovesEvaluation<Figure<T>>, Failure>,
    outcome: Result<Vec<ScoredMove<T>>, GnubgApiError>,
    storage_id: Result<String, String>,
    match_id: Seq<char>,
    roll: (i32, i32),
    plies: i32,
    evaluated: Seq<char>,
)
    requires
        answers_moves(result, outcome, storage_id, match_id, roll, plies, evaluated),
    ensures
        outcome matches Err(error) ==> refused(
            result,
            FailureKind::EvaluationFailed,
            native_failure(error),
        ),
        outcome is Ok ==> (storage_id matches Err(fault) ==> refused(
            result,
            FailureKind::EvaluationFailed,
            fault@,
        )),
        outcome matches Ok(scored) ==> (storage_id matches Ok(position) ==> {
            &&& result matches Ok(moves)
            &&& moves.die1 == smaller(roll.0, roll.1)
            &&& moves.die2 == larger(roll.0, roll.1)
            &&& moves.alternatives@.len() == scored@.len()
            &&& forall|i: int|
                0 <= i < scored@.len() ==> is_ranked(
                    #[trigger] moves.alternatives@[i],
                    scored@,
                    i,
                    position@,
                    match_id,
                    roll,
                    plies,
                    evaluated,
                )
        }),
{
    if outcome is Ok && storage_id is Ok {
        law_ranked_moves(
            result->Ok_0,
            outcome->Ok_0@,
            hint_context(storage_id->Ok_0, match_id, roll, plies, evaluated),
            roll,
        );
    }
}

/// The analysis of a move reports the first alternative that is written like the
/// played move beside the first alternative of all, each as it is ranked; where
/// none is written like it, the first alternative stands for it. A request that
/// names no move is refused, whatever the call gave.
pub proof fn law_analysis_answer<T>(
    result: Result<MoveAnalysis<Figure<T>>, Failure>,
    outcome: Result<Vec<ScoredMove<T>>, GnubgApiError>,
    storage_id: Result<String, String>,
    match_id: Seq<char>,
    roll: (i32, i32),
    plies: i32,
    played: Option<String>,
    evaluated: Seq<char>,
)
    requires
        answers_analysis(
            result,
            outcome,
            storage_id,
            match_id,
            roll,
            plies,
            played,
            evaluated,
        ),
    ensures
        played is None ==> refused(
            result,
            FailureKind::InvalidParams,
            "analyzeMove requires a move"@,
        ),
        played is Some ==> (outcome matches Err(error) ==> refused(
            result,
            FailureKind::EvaluationFailed,
            native_failure(error),
        )),
        played is Some && outcome is Ok ==> (storage_id matches Err(fault) ==> refused(
            result,
            FailureKind::EvaluationFailed,
            fault@,
        )),
        played is Some && outcome is Ok && storage_id is Ok && outcome->Ok_0@.len() == 0 ==> refused(
            result,
            FailureKind::EvaluationFailed,
            "no ranked alternatives"@,
        ),
        played is Some && outcome is Ok && storage_id is Ok && outcome->Ok_0@.len() > 0 ==> {
            let scored = outcome->Ok_0@;
            let position = storage_id->Ok_0@;
            &&& result matches Ok(analysis)
            &&& is_ranked(analysis.best, scored, 0, position, match_id, roll, plies, evaluated)
            &&& exists|k: int|
                {
                    &&& 0 <= k < scored.len()
                    &&& #[trigger] is_ranked(
                        analysis.played,
                        scored,
                        k,
                        position,
                        match_id,
                        roll,
                        plies,
                        evaluated,
                    )
                    &&& forall|i: int|
                        0 <= i < k ==> !written_like((#[trigger] scored[i]), played->Some_0@)
                    &&& written_like(scored[k], played->Some_0@) || k == 0 && forall|i: int|
                        0 <= i < scored.len() ==> !written_like(
                            (#[trigger] scored[i]),
                            played->Some_0@,
                        )
                }
        },
{
    if played is Some && outcome is Ok && storage_id is Ok && outcome->Ok_0@.len() > 0 {
        let scored = outcome->Ok_0@;
        let context = hint_context(storage_id->Ok_0, match_id, roll, plies, evaluated);
        let analysis = result->Ok_0;
        let text = played->Some_0@;
        let moves = choose|moves: MovesEvaluation<Figure<T>>|
            #[trigger] are_hints(moves, scored, context) && analysis.best == moves.alternatives@[0]
                && analysis.played == moves.alternatives@[played_index(moves.alternatives@, text)];
        law_ranked_moves(moves, scored, context, roll);
        let all = moves.alternatives@;
        law_played_is_first_match(all, text);
        let k = played_index(all, text);
        assert forall|i: int| 0 <= i < scored.len() implies (written_like(
            #[trigger] scored[i],
            text,
        ) <==> normalized(all[i].move_notation@) == normalized(text)) by {
            assert(is_ranked(
                all[i],
                scored,
                i,
                storage_id->Ok_0@,
                match_id,
                roll,
                plies,
                evaluated,
            ));
        }
        assert(is_ranked(
            analysis.played,
            scored,
            k,
            storage_id->Ok_0@,
            match_id,
            roll,
            plies,
            evaluated,
        ));
        if !written_like(scored[k], text) {
            assert forall|i: int| 0 <= i < scored.len() implies !written_like(
                #[trigger] scored[i],
                text,
            ) by {
                if written_like(scored[i], text) {
                    assert(normalized(all[i].move_notation@) == normalized(text));
                }
            }
        }
        assert forall|i: int| 0 <= i < k implies !written_like(#[trigger] scored[i], text) by {
            assert(normalized(all[i].move_notation@) != normalized(text));
        }
    }
}

/// Whether a scored move is written like a text, but for the order of the hops,
/// the letters' case and hit stars.
pub open spec fn written_like<T>(entry: ScoredMove<T>, text: Seq<char>) -> bool {
    normalized(notation(entry.mv.an_move@)) == normalized(text)
}

/// Cube and move calls carry their arguments, each in its own place.
pub proof fn law_native_arguments(
    call: NativeCall,
    position: Seq<char>,
    match_state: Seq<char>,
    first: i32,
    second: i32,
    depth: u32,
)
    ensures
        evaluates_cube(call, position, match_state, depth) ==> (call
            matches NativeCall::EvaluateCube { position_id, match_id, n_plies } && position_id@
            == position && match_id@ == match_state && n_plies == depth),
        scores_moves(call, position, match_state, (first, second), depth) ==> (call
            matches NativeCall::ScoreMoves { position_id, match_id, die1, die2, n_plies }
            && position_id@ == position && match_id@ == match_state && die1 == first && die2
            == second && n_plies == depth),
{
}

} // verus!
