//! Messages and evaluation requests.

use gnubg_engine_server::dispatch::{dispatch, Action, InFlight, Request};
use gnubg_engine_server::engine::{levels, Engine, LevelError, NativeCall, Resolved};
use gnubg_engine_server::evaluation::{
    begin_evaluation, finish_analysis, finish_analysis_at, finish_cube, finish_moves,
    finish_moves_at, finish_position, level_error_response, EvaluateParams, Failure, FailureKind,
    Task,
};
use gnubg_engine_server::ffi::{
    CubeDecisionResult, GnubgApiError, NativeMove, RolloutSettings, ScoredMove,
};
use gnubg_engine_server::json::JsonValue;
use gnubg_engine_server::mapping::{CubeAction, Figure};
use gnubg_engine_server::methods;
use gnubg_engine_server::request_log::{done_due, done_line, received_due, received_line};

fn engine() -> Engine {
    let defaults = RolloutSettings {
        n_trials: 36,
        cubeful: 1,
        variance_reduction: 1,
        chequer_plies: 0,
        cube_plies: 0,
        seed: 1,
        truncate: 0,
        truncate_plies: 0,
    };
    Engine::new(defaults, String::new())
}

fn params(level: &str) -> EvaluateParams {
    EvaluateParams {
        position_id: "4HPwATDgc/ABMA".to_string(),
        match_id: "cAkAAAAAAAAA".to_string(),
        level: level.to_string(),
        level_options: None,
        die1: None,
        die2: None,
        played_move: None,
    }
}

fn scored(an_move: [i32; 8], equity: i64) -> ScoredMove<i64> {
    ScoredMove { mv: NativeMove { an_move, n_submoves: 1, pips: 1 }, equity, probs: [0; 5] }
}

fn broken() -> GnubgApiError {
    GnubgApiError { code: 7, message: "broken".to_string() }
}

#[test]
fn identifiers_are_checked_first() {
    let mut request = params("nowhere");
    let fault = begin_evaluation(
        &engine(),
        methods::EVALUATE_POSITION,
        &request,
        Some("short position".to_string()),
        Some("short match".to_string()),
    )
    .unwrap_err();
    assert_eq!((fault.kind, fault.message.as_str()), (FailureKind::InvalidId, "short position"));
    let fault = begin_evaluation(
        &engine(),
        methods::EVALUATE_POSITION,
        &request,
        None,
        Some("short match".to_string()),
    )
    .unwrap_err();
    assert_eq!((fault.kind, fault.message.as_str()), (FailureKind::InvalidId, "short match"));
    request.match_id = "a\0".to_string();
    let fault =
        begin_evaluation(&engine(), methods::EVALUATE_POSITION, &request, None, None).unwrap_err();
    assert_eq!(
        (fault.kind, fault.message.as_str()),
        (FailureKind::InvalidId, "id contains a NUL byte")
    );
}

#[test]
fn refused_levels_are_answered() {
    let refuse = |level: &str, method: &str, options: Option<JsonValue>| {
        let request = EvaluateParams { level_options: options, ..params(level) };
        let failure = begin_evaluation(&engine(), method, &request, None, None).unwrap_err();
        (failure.kind, failure.message)
    };
    assert_eq!(
        refuse("9ply", methods::EVALUATE_CUBE, None),
        (FailureKind::UnknownLevel, "unknown level \"9ply\"".to_string())
    );
    assert_eq!(
        refuse(levels::PLY_0, methods::EVALUATE_CUBE, Some(JsonValue::Null)),
        (FailureKind::InvalidParams, "level \"0ply\" is not configurable".to_string())
    );
    assert_eq!(
        refuse(levels::PLY_3, methods::EVALUATE_CUBE, None),
        (
            FailureKind::MethodNotSupported,
            "level \"3ply\" does not answer evaluateCube".to_string()
        )
    );
    assert_eq!(
        refuse(levels::PLY_0, "dance", None),
        (FailureKind::MethodNotFound, "unknown method \"dance\"".to_string())
    );
    let failure = level_error_response(LevelError::InvalidOptions("bad".to_string()));
    assert_eq!((failure.kind, failure.message.as_str()), (FailureKind::InvalidParams, "bad"));
}

#[test]
fn positions_and_cubes_start_their_calls() {
    let started =
        begin_evaluation(&engine(), methods::EVALUATE_POSITION, &params("4ply"), None, None)
            .unwrap();
    assert!(matches!(started.task, Task::Position));
    assert_eq!(started.resolved, Resolved::Ply(4));
    assert!(matches!(started.call, NativeCall::EvaluatePosition { n_plies: 4, .. }));

    let request = EvaluateParams {
        level_options: Some(JsonValue::Object(vec![(
            "trials".to_string(),
            JsonValue::Unsigned(108),
        )])),
        ..params("rollout")
    };
    let started =
        begin_evaluation(&engine(), methods::EVALUATE_POSITION, &request, None, None).unwrap();
    match started.call {
        NativeCall::Rollout { position_id, match_id, settings } => {
            assert_eq!(position_id, request.position_id);
            assert_eq!(match_id, request.match_id);
            assert_eq!((settings.n_trials, settings.cubeful), (108, 1));
        }
        other => panic!("{other:?}"),
    }

    let started =
        begin_evaluation(&engine(), methods::EVALUATE_CUBE, &params("2ply"), None, None).unwrap();
    assert!(matches!(started.task, Task::Cube));
    assert!(matches!(started.call, NativeCall::EvaluateCube { n_plies: 2, .. }));
}

#[test]
fn moves_need_a_roll() {
    let start = |method: &str, die1: Option<i32>, die2: Option<i32>| {
        let request = EvaluateParams { die1, die2, ..params("1ply") };
        begin_evaluation(&engine(), method, &request, None, None)
    };
    for (die1, die2) in [
        (None, None), (Some(1), None), (None, Some(6)), (Some(0), Some(1)), (Some(1), Some(7)),
        (Some(-1), Some(3)), (Some(3), Some(i32::MAX)),
    ] {
        for method in [methods::EVALUATE_MOVES, methods::ANALYZE_MOVE] {
            let failure = start(method, die1, die2).unwrap_err();
            assert_eq!(failure.kind, FailureKind::InvalidParams);
            assert_eq!(failure.message, "die1 and die2 are required and must be 1-6");
        }
    }
    let started = start(methods::EVALUATE_MOVES, Some(6), Some(1)).unwrap();
    assert!(matches!(started.task, Task::Moves { die1: 6, die2: 1, plies: 1 }));
    assert!(matches!(started.call, NativeCall::ScoreMoves { die1: 6, die2: 1, n_plies: 1, .. }));
    let started = start(methods::ANALYZE_MOVE, Some(2), Some(2)).unwrap();
    assert!(matches!(started.task, Task::Analysis { die1: 2, die2: 2, plies: 1 }));
}

#[test]
fn calls_are_answered() {
    let payload = finish_position(Ok([1, 2, 3, 4, 5, 6, 7])).unwrap();
    assert!(matches!(payload.equity, Figure::Value(reading) if reading.value == 6));
    let failure = finish_position::<i64>(Err(broken())).unwrap_err();
    assert_eq!(failure.kind, FailureKind::EvaluationFailed);
    assert_eq!(failure.message, "gnubgapi error 7: broken");

    let decided = |decision| CubeDecisionResult {
        cubeful_outputs: [[0; 7]; 2],
        equities: [0; 4],
        decision,
    };
    assert_eq!(finish_cube(Ok(decided(0))).unwrap().recommended_action, CubeAction::Double);
    let failure = finish_cube(Ok(decided(77))).unwrap_err();
    assert_eq!(failure.kind, FailureKind::EvaluationFailed);
    assert_eq!(failure.message, "unrecognised cubedecision value 77 from gnubg");
    let failure = finish_cube::<i64>(Err(broken())).unwrap_err();
    assert_eq!(failure.message, "gnubgapi error 7: broken");
}

#[test]
fn moves_are_answered() {
    let stored = || Ok("stored".to_string());
    let some = || Ok(vec![scored([7, 4, 5, 4, -1, -1, -1, -1], 9), scored([0, -1, -1, 0, 0, 0, 0, 0], 3)]);
    let moves = finish_moves_at(some(), stored(), "m", 3, 1, 2, "then").unwrap();
    assert_eq!(moves.alternatives[0].move_notation, "8/5 6/5");
    assert_eq!(moves.alternatives[1].evaluated_utc, "then");
    let now = finish_moves(some(), stored(), "m", 3, 1, 2).unwrap();
    assert_eq!(now.alternatives.len(), 2);
    assert!(now.alternatives[0].evaluated_utc.ends_with('Z'));
    let failure = finish_moves::<i64>(Err(broken()), stored(), "m", 3, 1, 2).unwrap_err();
    assert_eq!(failure.message, "gnubgapi error 7: broken");
    let failure = finish_moves(some(), Err("no id".to_string()), "m", 3, 1, 2).unwrap_err();
    assert_eq!((failure.kind, failure.message.as_str()), (FailureKind::EvaluationFailed, "no id"));
}

#[test]
fn analyses_are_answered() {
    let stored = || Ok("stored".to_string());
    let some = || Ok(vec![scored([7, 4, 5, 4, -1, -1, -1, -1], 9), scored([0, -1, -1, 0, 0, 0, 0, 0], 3)]);
    let played = Some("1/OFF".to_string());
    let analysis =
        finish_analysis_at(some(), stored(), "m", 3, 1, 0, played.clone(), "then").unwrap();
    assert_eq!((analysis.played.rank, analysis.best.rank), (2, 1));
    assert_eq!(analysis.played.evaluated_utc, "then");
    let analysis =
        finish_analysis(some(), stored(), "m", 3, 1, 0, Some("6/1".to_string())).unwrap();
    assert_eq!((analysis.played.rank, analysis.best.rank), (1, 1));
    // A request without a move is refused even where the call failed.
    let failure = finish_analysis::<i64>(Err(broken()), stored(), "m", 3, 1, 0, None).unwrap_err();
    assert_eq!(failure.kind, FailureKind::InvalidParams);
    assert_eq!(failure.message, "analyzeMove requires a move");
    let failure =
        finish_analysis::<i64>(Err(broken()), stored(), "m", 3, 1, 0, played.clone()).unwrap_err();
    assert_eq!(failure.message, "gnubgapi error 7: broken");
    let none: Result<Vec<ScoredMove<i64>>, GnubgApiError> = Ok(Vec::new());
    let failure = finish_analysis(none, stored(), "m", 3, 1, 0, played).unwrap_err();
    assert_eq!(
        (failure.kind, failure.message.as_str()),
        (FailureKind::EvaluationFailed, "no ranked alternatives")
    );
}

#[test]
fn messages_are_dispatched() {
    let mut flying = InFlight::new();
    assert!(matches!(dispatch(&mut flying, Some("1"), Request::Describe), Action::Describe));
    assert!(matches!(dispatch(&mut flying, None, Request::Describe), Action::Nothing));
    assert!(matches!(
        dispatch(&mut flying, Some("1"), Request::Shutdown),
        Action::Shutdown { answer: true }
    ));
    assert!(matches!(
        dispatch(&mut flying, None, Request::Shutdown),
        Action::Shutdown { answer: false }
    ));
    let unknown = || Request::Unknown { method: "da\nnce".to_string() };
    assert!(matches!(dispatch(&mut flying, None, unknown()), Action::Nothing));
    match dispatch(&mut flying, Some("1"), unknown()) {
        Action::Refuse(failure) => {
            assert_eq!(failure.kind, FailureKind::MethodNotFound);
            assert_eq!(failure.message, "unknown method \"da\\nnce\"");
        }
        other => panic!("{other:?}"),
    }
}

#[test]
fn evaluations_fly_until_they_are_answered() {
    let mut flying = InFlight::new();
    let evaluate = |params: Result<EvaluateParams, String>| Request::Evaluate {
        method: methods::EVALUATE_CUBE.to_string(),
        params,
    };
    let cancel = |id: &str| Request::Cancel { target: Ok(id.to_string()) };
    assert!(matches!(
        dispatch(&mut flying, None, evaluate(Ok(params("0ply")))),
        Action::NotificationIgnored { .. }
    ));
    match dispatch(&mut flying, Some("1"), evaluate(Err("no level".to_string()))) {
        Action::Refuse(failure) => {
            assert_eq!(failure.kind, FailureKind::InvalidParams);
            assert_eq!(failure.message, "no level");
        }
        other => panic!("{other:?}"),
    }
    assert!(!flying.contains("1"));
    assert!(matches!(
        dispatch(&mut flying, Some("1"), evaluate(Ok(params("0ply")))),
        Action::Evaluate { .. }
    ));
    assert!(flying.contains("1"));
    assert!(matches!(
        dispatch(&mut flying, None, cancel("1")),
        Action::CancelIgnored { known: true, .. }
    ));
    assert!(matches!(
        dispatch(&mut flying, Some("2"), cancel("\"1\"")),
        Action::CancelIgnored { known: false, .. }
    ));
    assert!(matches!(
        dispatch(&mut flying, None, Request::Cancel { target: Err("bad".to_string()) }),
        Action::CancelMalformed { .. }
    ));
    assert!(flying.contains("1") && !flying.contains("2"));
    flying.insert("1");
    flying.insert("2");
    flying.remove("1");
    flying.remove("3");
    assert!(!flying.contains("1") && flying.contains("2"));
}

#[test]
fn log_lines_are_written() {
    let mut request = params("2ply");
    request.position_id = "P".to_string();
    request.match_id = "M".to_string();
    assert_eq!(
        received_line("evaluateCube", &request, "deep"),
        "Recv evaluateCube Level=2ply deep Pos=P Match=M"
    );
    request.die1 = Some(6);
    assert_eq!(
        received_line("evaluateMoves", &request, ""),
        "Recv evaluateMoves Level=2ply  Pos=P Match=M"
    );
    request.die2 = Some(-1);
    assert_eq!(
        received_line("evaluateMoves", &request, "x"),
        "Recv evaluateMoves Level=2ply x Die=6,-1 Pos=P Match=M"
    );
    assert_eq!(done_line("m", "0ply", None, 0), "Done m Level=0ply ok in 0 ms");
    assert_eq!(
        done_line("m", "0ply", Some("no net"), 120),
        "Done m Level=0ply FAILED no net in 120 ms"
    );
}

#[test]
fn receipts_are_logged_once_the_level_is_resolved() {
    let fault = Some("bad".to_string());
    let due = |enabled: bool, level: &str, method: &str| {
        received_due(enabled, method, &params(level), &None, &None)
    };
    assert_eq!(due(true, "2ply", methods::EVALUATE_CUBE), Some(Resolved::Ply(2)));
    assert_eq!(due(false, "2ply", methods::EVALUATE_CUBE), None);
    assert_eq!(due(true, "3ply", methods::EVALUATE_CUBE), None);
    assert_eq!(due(true, "9ply", methods::EVALUATE_CUBE), None);
    // The dice are looked at afterwards.
    assert_eq!(due(true, "1ply", methods::EVALUATE_MOVES), Some(Resolved::Ply(1)));
    let request = params("2ply");
    let method = methods::EVALUATE_POSITION;
    assert_eq!(received_due(true, method, &request, &fault, &None), None);
    assert_eq!(received_due(true, method, &request, &None, &fault), None);
    let request = EvaluateParams { position_id: "a\0".to_string(), ..params("2ply") };
    assert_eq!(received_due(true, method, &request, &None, &None), None);
    let request = EvaluateParams { match_id: "\0".to_string(), ..params("2ply") };
    assert_eq!(received_due(true, method, &request, &None, &None), None);
}

#[test]
fn only_evaluated_requests_are_logged_as_done() {
    let due = |enabled: bool, result: Result<(), FailureKind>| {
        let result =
            result.map_err(|kind| Failure { kind, message: "broken".to_string() });
        done_due(enabled, "m", "0ply", &result, 5)
    };
    assert_eq!(due(true, Ok(())).unwrap(), "Done m Level=0ply ok in 5 ms");
    assert_eq!(
        due(true, Err(FailureKind::EvaluationFailed)).unwrap(),
        "Done m Level=0ply FAILED broken in 5 ms"
    );
    assert!(due(true, Err(FailureKind::InvalidParams)).is_none());
    assert!(due(true, Err(FailureKind::UnknownLevel)).is_none());
    assert!(due(false, Ok(())).is_none());
    assert!(due(false, Err(FailureKind::EvaluationFailed)).is_none());
}
