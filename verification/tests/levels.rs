//! Levels: what requests resolve to, the options of the rollout, and the
//! engine's description.

use gnubg_engine_server::describe::Level;
use gnubg_engine_server::engine::{
    check_native_paths, has_nul, levels, ply_methods, resolve_level, startup_step, Engine,
    LevelError, NativeCall, Resolved, StartupEvent, StartupStep,
};
use gnubg_engine_server::ffi::{
    creation_result, native_result, version_text, GnubgApiError, RolloutSettings, GNUBGAPI_OK,
};
use gnubg_engine_server::json::JsonValue;
use gnubg_engine_server::methods;
use gnubg_engine_server::options::RolloutOptions;
use serde_json::Value;

fn plain(value: &Value) -> JsonValue {
    match value {
        Value::Null => JsonValue::Null,
        Value::Bool(b) => JsonValue::Bool(*b),
        Value::Number(n) => match (n.as_u64(), n.as_i64()) {
            (Some(n), _) => JsonValue::Unsigned(n),
            (None, Some(n)) => JsonValue::Signed(n),
            (None, None) => JsonValue::Float(n.to_string()),
        },
        Value::String(s) => JsonValue::Text(s.clone()),
        Value::Array(items) => JsonValue::List(items.iter().map(plain).collect()),
        Value::Object(map) => {
            JsonValue::Object(map.iter().map(|(k, v)| (k.clone(), plain(v))).collect())
        }
    }
}

fn json(text: &str) -> JsonValue {
    plain(&serde_json::from_str::<Value>(text).unwrap())
}

fn defaults() -> RolloutSettings {
    RolloutSettings {
        n_trials: 1296,
        cubeful: 1,
        variance_reduction: 1,
        chequer_plies: 0,
        cube_plies: 2,
        seed: 7,
        truncate: 0,
        truncate_plies: 11,
    }
}

#[test]
fn ply_levels_resolve_and_stamp_gnubg_convention() {
    let resolved = resolve_level(levels::PLY_0, methods::EVALUATE_MOVES, None).unwrap();
    assert_eq!(resolved, Resolved::Ply(0));
    assert_eq!(resolved.plies_stamp(), 0);
    let resolved = resolve_level(levels::PLY_2, methods::EVALUATE_CUBE, None).unwrap();
    assert_eq!(resolved.plies_stamp(), 2);
}

#[test]
fn cube_only_on_even_plies() {
    for level in [levels::PLY_1, levels::PLY_3] {
        assert!(matches!(
            resolve_level(level, methods::EVALUATE_CUBE, None),
            Err(LevelError::MethodNotSupported { .. })
        ));
        assert!(resolve_level(level, methods::EVALUATE_MOVES, None).is_ok());
    }
    for level in [levels::PLY_0, levels::PLY_2, levels::PLY_4] {
        assert!(resolve_level(level, methods::EVALUATE_CUBE, None).is_ok());
    }
    assert!(matches!(
        resolve_level(levels::PLY_4, methods::EVALUATE_MOVES, None),
        Err(LevelError::MethodNotSupported { .. })
    ));
}

#[test]
fn rollout_answers_evaluate_position_only() {
    assert!(matches!(
        resolve_level(levels::ROLLOUT, methods::EVALUATE_POSITION, None),
        Ok(Resolved::Rollout(_))
    ));
    assert!(matches!(
        resolve_level(levels::ROLLOUT, methods::EVALUATE_MOVES, None),
        Err(LevelError::MethodNotSupported { .. })
    ));
}

#[test]
fn rollout_options_reject_unknown_keys_and_ply_levels_reject_options() {
    let options = json(r#"{"trials": 108, "bogus": true}"#);
    assert!(matches!(
        resolve_level(levels::ROLLOUT, methods::EVALUATE_POSITION, Some(&options)),
        Err(LevelError::InvalidOptions(_))
    ));
    let options = json(r#"{"trials": 108}"#);
    assert!(matches!(
        resolve_level(levels::PLY_2, methods::EVALUATE_POSITION, Some(&options)),
        Err(LevelError::InvalidOptions(_))
    ));
    let options = json(r#"{"trials": 108, "cubePlies": 2}"#);
    let resolved =
        resolve_level(levels::ROLLOUT, methods::EVALUATE_POSITION, Some(&options)).unwrap();
    assert_eq!(
        resolved,
        Resolved::Rollout(RolloutOptions {
            trials: Some(108),
            cube_plies: Some(2),
            ..RolloutOptions::default()
        })
    );
}

#[test]
fn level_errors_say_what_is_wrong() {
    match resolve_level("5ply", methods::EVALUATE_POSITION, None) {
        Err(LevelError::UnknownLevel(level)) => assert_eq!(level, "5ply"),
        other => panic!("{other:?}"),
    }
    match resolve_level(levels::PLY_1, methods::EVALUATE_POSITION, Some(&JsonValue::Null)) {
        Err(LevelError::InvalidOptions(message)) => {
            assert_eq!(message, "level \"1ply\" is not configurable")
        }
        other => panic!("{other:?}"),
    }
    match resolve_level(levels::ROLLOUT, methods::ANALYZE_MOVE, None) {
        Err(LevelError::MethodNotSupported { level, method }) => {
            assert_eq!(level, "rollout");
            assert_eq!(method, "analyzeMove");
        }
        other => panic!("{other:?}"),
    }
    // Options are refused before the method is looked at.
    assert!(matches!(
        resolve_level(levels::PLY_1, methods::EVALUATE_CUBE, Some(&JsonValue::Null)),
        Err(LevelError::InvalidOptions(_))
    ));
    // A level without a list of methods answers whatever it is asked.
    assert_eq!(resolve_level(levels::PLY_0, "other", None).unwrap(), Resolved::Ply(0));
}

#[test]
fn ply_methods_by_depth() {
    assert!(ply_methods(0).is_none());
    assert_eq!(
        ply_methods(1).unwrap(),
        [methods::EVALUATE_POSITION, methods::EVALUATE_MOVES, methods::ANALYZE_MOVE]
    );
    assert!(ply_methods(2).is_none());
    assert_eq!(ply_methods(3).unwrap(), ply_methods(1).unwrap());
    assert_eq!(
        ply_methods(4).unwrap(),
        [methods::EVALUATE_POSITION, methods::EVALUATE_CUBE]
    );
    assert!(ply_methods(5).is_none());
}

#[test]
fn stamps_keep_the_bits_of_large_depths() {
    assert_eq!(Resolved::Ply(4).plies_stamp(), 4);
    assert_eq!(Resolved::Ply(u32::MAX).plies_stamp(), -1);
    assert_eq!(Resolved::Ply(0x8000_0000).plies_stamp(), i32::MIN);
    assert_eq!(Resolved::Rollout(RolloutOptions::default()).plies_stamp(), 0);
}

#[test]
fn every_option_is_read() {
    let options = json(
        r#"{"trials": 1, "cubeful": true, "varianceReduction": false, "chequerPlies": 2,
            "cubePlies": 3, "seed": 4294967295, "truncate": true, "truncatePlies": 5}"#,
    );
    assert_eq!(
        RolloutOptions::from_json(&options).unwrap(),
        RolloutOptions {
            trials: Some(1),
            cubeful: Some(true),
            variance_reduction: Some(false),
            chequer_plies: Some(2),
            cube_plies: Some(3),
            seed: Some(4294967295),
            truncate: Some(true),
            truncate_plies: Some(5),
        }
    );
    assert_eq!(RolloutOptions::from_json(&json("{}")).unwrap(), RolloutOptions::default());
    let nulls = json(r#"{"trials": null, "cubeful": null}"#);
    assert_eq!(RolloutOptions::from_json(&nulls).unwrap(), RolloutOptions::default());
}

#[test]
fn options_in_an_array_stand_in_order() {
    assert_eq!(
        RolloutOptions::from_json(&json("[108, true, null, 1]")).unwrap(),
        RolloutOptions {
            trials: Some(108),
            cubeful: Some(true),
            chequer_plies: Some(1),
            ..RolloutOptions::default()
        }
    );
    assert_eq!(
        RolloutOptions::from_json(&json("[1,true,true,1,1,1,true,1,1]")).unwrap_err(),
        "invalid length 9, expected fewer elements in array"
    );
    assert_eq!(
        RolloutOptions::from_json(&json("[1,true,true,1,1,1,true,true,1]")).unwrap_err(),
        "invalid type: boolean `true`, expected u32"
    );
}

#[test]
fn refused_options_say_why() {
    let fault = |text: &str| RolloutOptions::from_json(&json(text)).unwrap_err();
    assert_eq!(
        fault(r#"{"bogus": 1}"#),
        "unknown field `bogus`, expected one of `trials`, `cubeful`, `varianceReduction`, \
         `chequerPlies`, `cubePlies`, `seed`, `truncate`, `truncatePlies`"
    );
    assert_eq!(fault("null"), "invalid type: null, expected struct RolloutOptions");
    assert_eq!(fault("3"), "invalid type: integer `3`, expected struct RolloutOptions");
    assert_eq!(
        fault("\"a\\\"b\""),
        "invalid type: string \"a\\\"b\", expected struct RolloutOptions"
    );
    let twice = JsonValue::Object(vec![
        ("seed".to_string(), JsonValue::Unsigned(1)),
        ("seed".to_string(), JsonValue::Unsigned(2)),
    ]);
    assert_eq!(RolloutOptions::from_json(&twice).unwrap_err(), "duplicate field `seed`");
    // The first faulty entry is named.
    assert_eq!(
        fault(r#"{"cubeful": 1, "seed": -1}"#),
        "invalid type: integer `1`, expected a boolean"
    );
}

#[test]
fn fields_are_read_as_serde_reads_them() {
    let values = [
        "null", "true", "false", "0", "108", "4294967295", "4294967296", "18446744073709551615",
        "-1", "-9223372036854775808", "1.5", "-2.25e30", "1e400", "\"\"", "\"te\\nxt \\\" \\u00e9\"",
        "[]", "[1]", "{}", "{\"a\": 1}",
    ];
    for text in values {
        let Ok(value) = serde_json::from_str::<Value>(text) else {
            continue;
        };
        let count = serde_json::from_value::<Option<u32>>(value.clone()).map_err(|e| e.to_string());
        let entry = JsonValue::Object(vec![("trials".to_string(), plain(&value))]);
        assert_eq!(RolloutOptions::from_json(&entry).map(|o| o.trials), count, "{text}");
        let flag = serde_json::from_value::<Option<bool>>(value.clone()).map_err(|e| e.to_string());
        let entry = JsonValue::Object(vec![("truncate".to_string(), plain(&value))]);
        assert_eq!(RolloutOptions::from_json(&entry).map(|o| o.truncate), flag, "{text}");
    }
}

#[test]
fn description_lists_the_catalog() {
    let engine = Engine::new(defaults(), "1.2.3".to_string());
    let description = engine.describe("build 9");
    assert_eq!(description.protocol_version, "0.1");
    assert_eq!(description.engine.family, "gnubg");
    assert_eq!(description.engine.display_name, "GNU Backgammon");
    assert_eq!(description.engine.version, "1.2.3");
    assert_eq!(description.engine.build, "build 9");
    assert_eq!(description.max_parallel, 1);
    assert_eq!(description.conventions.ply_counting, "gnubg");
    assert_eq!(description.conventions.equity, "contract");
    let ids: Vec<&str> = description.levels.iter().map(|l| l.id.as_str()).collect();
    assert_eq!(ids, ["0ply", "1ply", "2ply", "3ply", "4ply", "rollout"]);
    for (depth, level) in description.levels.iter().take(5).enumerate() {
        assert_eq!(level.kind, "ply");
        assert_eq!(level.ply_depth, Some(depth as u32));
        assert!(level.rollout.is_none() && level.display_name.is_none() && !level.configurable);
        assert!(!level.supports_progress && !level.supports_cancel);
    }
    let rollout = &description.levels[5];
    assert_eq!(rollout.kind, "rollout");
    assert_eq!(rollout.methods.as_deref().unwrap(), ["evaluatePosition"]);
    assert!(rollout.configurable && rollout.ply_depth.is_none());
    let params = rollout.rollout.unwrap();
    assert_eq!(params.trials, 1296);
    assert_eq!(params.truncation, 0);
    assert!(params.variance_reduction);
    assert_eq!(params.checker_ply, Some(0));
    assert_eq!(params.cube_ply, Some(2));

    let truncated = RolloutSettings { truncate: 1, variance_reduction: 0, ..defaults() };
    let params = Engine::new(truncated, String::new()).describe("").levels[5].rollout.unwrap();
    assert_eq!(params.truncation, 11);
    assert!(!params.variance_reduction);
}

#[test]
fn description_agrees_with_resolution() {
    let all = [
        methods::EVALUATE_POSITION,
        methods::EVALUATE_CUBE,
        methods::EVALUATE_MOVES,
        methods::ANALYZE_MOVE,
    ];
    let answers = |level: &Level, method: &str| match &level.methods {
        Some(names) => names.iter().any(|name| name == method),
        None => true,
    };
    for level in &Engine::new(defaults(), String::new()).describe("").levels {
        for method in all {
            let resolved = resolve_level(&level.id, method, None);
            assert_eq!(answers(level, method), resolved.is_ok(), "{} {method}", level.id);
            if let Ok(resolved) = resolved {
                assert_eq!(resolved.plies_stamp(), level.ply_depth.unwrap_or(0) as i32);
            }
        }
        let empty = JsonValue::Object(Vec::new());
        assert_eq!(
            level.configurable,
            resolve_level(&level.id, methods::EVALUATE_POSITION, Some(&empty)).is_ok()
        );
    }
}

#[test]
fn positions_are_evaluated_or_rolled_out() {
    let engine = Engine::new(defaults(), String::new());
    match engine.evaluate_position("pos", "match", &Resolved::Ply(3)) {
        NativeCall::EvaluatePosition { position_id, match_id, n_plies } => {
            assert_eq!((position_id.as_str(), match_id.as_str(), n_plies), ("pos", "match", 3));
        }
        other => panic!("{other:?}"),
    }
    let none = Resolved::Rollout(RolloutOptions::default());
    match engine.evaluate_position("p", "m", &none) {
        NativeCall::Rollout { settings, .. } => assert_eq!(settings, defaults()),
        other => panic!("{other:?}"),
    }
    let some = Resolved::Rollout(RolloutOptions {
        trials: Some(36),
        cubeful: Some(false),
        truncate: Some(true),
        seed: Some(0),
        ..RolloutOptions::default()
    });
    match engine.evaluate_position("p", "m", &some) {
        NativeCall::Rollout { settings, .. } => assert_eq!(
            settings,
            RolloutSettings { n_trials: 36, cubeful: 0, truncate: 1, seed: 0, ..defaults() }
        ),
        other => panic!("{other:?}"),
    }
    let rest = Resolved::Rollout(RolloutOptions {
        variance_reduction: Some(false),
        chequer_plies: Some(1),
        cube_plies: Some(4),
        truncate_plies: Some(9),
        ..RolloutOptions::default()
    });
    match engine.evaluate_position("p", "m", &rest) {
        NativeCall::Rollout { settings, .. } => assert_eq!(
            settings,
            RolloutSettings {
                variance_reduction: 0,
                chequer_plies: 1,
                cube_plies: 4,
                truncate_plies: 9,
                ..defaults()
            }
        ),
        other => panic!("{other:?}"),
    }
}

#[test]
fn cube_and_move_calls_carry_their_arguments() {
    let engine = Engine::new(defaults(), String::new());
    match engine.evaluate_cube("p", "m", 4) {
        NativeCall::EvaluateCube { position_id, match_id, n_plies } => {
            assert_eq!((position_id.as_str(), match_id.as_str(), n_plies), ("p", "m", 4));
        }
        other => panic!("{other:?}"),
    }
    match engine.scored_moves("p", "m", 6, 1, 2) {
        NativeCall::ScoreMoves { position_id, match_id, die1, die2, n_plies } => {
            assert_eq!((position_id.as_str(), match_id.as_str()), ("p", "m"));
            assert_eq!((die1, die2, n_plies), (6, 1, 2));
        }
        other => panic!("{other:?}"),
    }
}

#[test]
fn startup_goes_step_by_step() {
    let error = || GnubgApiError { code: -3, message: "no net".to_string() };
    assert!(matches!(startup_step(StartupEvent::Created(Ok(()))), Ok(StartupStep::Initialize)));
    assert_eq!(
        startup_step(StartupEvent::Created(Err(error()))).unwrap_err(),
        "gnubgapi_create failed: gnubgapi error -3: no net"
    );
    assert!(matches!(
        startup_step(StartupEvent::Initialized(Ok(()))),
        Ok(StartupStep::AskForReport)
    ));
    assert_eq!(
        startup_step(StartupEvent::Initialized(Err(error()))).unwrap_err(),
        "gnubgapi_init failed: gnubgapi error -3: no net"
    );
    let reported =
        StartupEvent::Reported { rollout_defaults: defaults(), version: "1.0.0".to_string() };
    match startup_step(reported) {
        Ok(StartupStep::Serve(engine)) => {
            assert_eq!(engine.rollout_defaults, defaults());
            assert_eq!(engine.version, "1.0.0");
        }
        other => panic!("{other:?}"),
    }
}

#[test]
fn native_strings_hold_no_nul() {
    assert!(has_nul("a\0b"));
    assert!(!has_nul("ab"));
    assert!(!has_nul(""));
    let fine = vec!["/w".to_string(), "/d".to_string()];
    assert!(check_native_paths(&fine).is_ok());
    let broken = vec!["/w".to_string(), "/\0d".to_string(), "\0".to_string()];
    assert_eq!(check_native_paths(&broken).unwrap_err(), "path contains a NUL byte: /\0d");
}

#[test]
fn native_status_decides_the_result() {
    assert_eq!(native_result(GNUBGAPI_OK, 5, None).unwrap(), 5);
    let error = native_result(2, 5, Some("bad id".to_string())).unwrap_err();
    assert_eq!((error.code, error.message.as_str()), (2, "bad id"));
    let error = native_result(-1, 5, None).unwrap_err();
    assert_eq!(error.to_text(), "gnubgapi error -1: ");
    assert!(creation_result(true, None).is_ok());
    let error = creation_result(false, Some("no memory".to_string())).unwrap_err();
    assert_eq!(error.to_text(), "gnubgapi error 0: no memory");
    assert_eq!(creation_result(false, None).unwrap_err().message, "");
    let lowest = GnubgApiError { code: i32::MIN, message: "x".to_string() };
    assert_eq!(lowest.to_text(), "gnubgapi error -2147483648: x");
    assert_eq!(version_text(1, 0, 4294967295), "1.0.4294967295");
}

#[test]
fn a_startup_that_serves_holds_the_report() {
    let mut event = StartupEvent::Created(Ok(()));
    let mut seen = 0;
    let engine = loop {
        seen += 1;
        event = match startup_step(event).unwrap() {
            StartupStep::Initialize => StartupEvent::Initialized(Ok(())),
            StartupStep::AskForReport => StartupEvent::Reported {
                rollout_defaults: defaults(),
                version: "2.0.1".to_string(),
            },
            StartupStep::Serve(engine) => break engine,
        };
    };
    assert_eq!(seen, 3);
    assert_eq!(engine.rollout_defaults, defaults());
    assert_eq!(engine.version, "2.0.1");
}
