//! Payloads: positions, cube decisions, ranked moves and played moves.

use gnubg_engine_server::clock::{utc_at, utc_now};
use gnubg_engine_server::ffi::{cube_decision, CubeDecisionResult, NativeMove, ScoredMove};
use gnubg_engine_server::mapping::{
    cube_payload, map_decision, position_payload, CubeAction, Figure, Range, Reading,
};
use gnubg_engine_server::moves::{
    analyze_payload, are_numbered, move_hints, move_hints_at, MoveHint, MovesEvaluation,
};

fn value<T>(value: T, range: Range, field: &'static str) -> Figure<T> {
    Figure::Value(Reading { value, range, field })
}

fn scored(an_move: [i32; 8], equity: f64) -> ScoredMove<f64> {
    ScoredMove {
        mv: NativeMove { an_move, n_submoves: 2, pips: 4 },
        equity,
        probs: [0.5, 0.2, 0.1, 0.15, 0.05],
    }
}

#[test]
fn decision_collapse_matches_the_cloud_evaluator() {
    assert_eq!(map_decision(cube_decision::DOUBLE_PASS).unwrap(), (CubeAction::Double, false));
    assert_eq!(
        map_decision(cube_decision::OPTIONAL_REDOUBLE_PASS).unwrap(),
        (CubeAction::Double, false)
    );
    assert_eq!(map_decision(cube_decision::NOT_AVAILABLE).unwrap(), (CubeAction::NoDouble, false));
    assert_eq!(map_decision(cube_decision::TOOGOODRE_PASS).unwrap(), (CubeAction::NoDouble, true));
    assert!(map_decision(99).is_err());
}

#[test]
fn every_decision_has_its_action() {
    let double = [0, 1, 5, 7, 8, 16, 17, 18, 19, 20];
    let too_good = [3, 4, 10, 11];
    for decision in 0..=20 {
        let expected = if double.contains(&decision) {
            (CubeAction::Double, false)
        } else {
            (CubeAction::NoDouble, too_good.contains(&decision))
        };
        assert_eq!(map_decision(decision).unwrap(), expected, "{decision}");
    }
    assert_eq!(
        map_decision(-1).unwrap_err(),
        "unrecognised cubedecision value -1 from gnubg"
    );
    assert_eq!(
        map_decision(21).unwrap_err(),
        "unrecognised cubedecision value 21 from gnubg"
    );
}

#[test]
fn analyze_falls_back_to_best_when_unmatched() {
    let hint = |rank: i32, notation: &str| MoveHint {
        gnubg_position_id: String::new(),
        gnubg_match_id: String::new(),
        die1: 1,
        die2: 3,
        evaluation_engine_id: 0,
        plies: 0,
        rank,
        move_notation: notation.to_string(),
        equity: 0.0,
        error_vs_best: 0.0,
        win_prob: 0.5,
        win_gammon: 0.0,
        win_backgammon: 0.0,
        lose_gammon: 0.0,
        lose_backgammon: 0.0,
        evaluated_utc: String::new(),
    };
    let moves = MovesEvaluation {
        die1: 1,
        die2: 3,
        alternatives: vec![hint(1, "8/5 6/5"), hint(2, "24/23 13/10")],
    };
    let matched = analyze_payload(moves.clone(), "24/23 13/10").unwrap();
    assert_eq!(matched.played.rank, 2);
    let fallback = analyze_payload(moves, "3/2 1/off").unwrap();
    assert_eq!(fallback.played.rank, 1);
}

#[test]
fn analysis_ignores_order_case_and_stars() {
    let moves = move_hints_at(
        &[scored([7, 4, 5, 4, -1, -1, -1, -1], 0.2), scored([24, 21, 12, 9, -1, -1, -1, -1], 0.1)],
        Ok("stored".to_string()),
        "match",
        3,
        1,
        0,
        "",
    )
    .unwrap();
    for played in ["bar/22 13/10", "13/10 Bar/22*", " 13/10*   BAR/22 "] {
        let analysis = analyze_payload(moves.clone(), played).unwrap();
        assert_eq!(analysis.played.rank, 2);
        assert_eq!(analysis.best.rank, 1);
    }
    let none: MovesEvaluation<f64> = MovesEvaluation { die1: 1, die2: 1, alternatives: vec![] };
    assert_eq!(analyze_payload(none, "6/5").unwrap_err(), "no ranked alternatives");
}

#[test]
fn positions_are_read_slot_by_slot() {
    let payload = position_payload(&[0.1, 0.2, 0.3, 0.4, 0.5, 0.6, 0.7]);
    assert_eq!(payload.win_prob, value(0.1, Range::Probability, "WinProb"));
    assert_eq!(payload.win_gammon, value(0.2, Range::Probability, "WinGammon"));
    assert_eq!(payload.win_backgammon, value(0.3, Range::Probability, "WinBackgammon"));
    assert_eq!(payload.lose_gammon, value(0.4, Range::Probability, "LoseGammon"));
    assert_eq!(payload.lose_backgammon, value(0.5, Range::Probability, "LoseBackgammon"));
    assert_eq!(payload.equity, value(0.6, Range::Equity, "Equity"));
    assert_eq!(payload.cubeful_equity, value(0.7, Range::Cubeful, "CubefulEquity"));
}

#[test]
fn cube_decisions_are_read_slot_by_slot() {
    let mut result = CubeDecisionResult {
        cubeful_outputs: [[1, 2, 3, 4, 5, 6, 7], [11, 12, 13, 14, 15, 16, 17]],
        equities: [20, 21, 22, 23],
        decision: cube_decision::TOOGOOD_PASS,
    };
    let no_double = Reading { value: 21, range: Range::Cubeful, field: "NoDoubleEquity" };
    let take = Reading { value: 22, range: Range::Cubeful, field: "TakeEquity" };
    let drop = Reading { value: 23, range: Range::Cubeful, field: "DropEquity" };
    let payload = cube_payload(&result).unwrap();
    assert_eq!(payload.recommended_action, CubeAction::NoDouble);
    assert!(payload.too_good_to_double);
    assert_eq!(payload.no_double_equity, Figure::Value(no_double));
    assert_eq!(payload.take_equity, Figure::Value(take));
    assert_eq!(payload.drop_equity, Figure::Value(drop));
    assert_eq!(payload.double_take_gain, Figure::Gain { of: take, over: no_double });
    assert_eq!(payload.double_drop_gain, Figure::Gain { of: drop, over: no_double });
    assert_eq!(payload.cube_efficiency, None);
    let prob = |n, field| Some(value(n, Range::Probability, field));
    assert_eq!(payload.our_win_prob, prob(1, "NoDouble.WinProb"));
    assert_eq!(payload.our_gammon_prob, prob(2, "NoDouble.WinGammon"));
    assert_eq!(payload.our_backgammon_prob, prob(3, "NoDouble.WinBackgammon"));
    assert_eq!(payload.opp_win_prob, prob(11, "DoubleTake.WinProb"));
    assert_eq!(payload.opp_gammon_prob, prob(12, "DoubleTake.WinGammon"));
    assert_eq!(payload.opp_backgammon_prob, prob(13, "DoubleTake.WinBackgammon"));
    result.decision = 42;
    assert_eq!(
        cube_payload(&result).unwrap_err(),
        "unrecognised cubedecision value 42 from gnubg"
    );
}

#[test]
fn moves_are_ranked_in_their_order() {
    let entries =
        [scored([23, 22, 12, 9, -1, -1, -1, -1], 0.25), scored([5, -1, -1, 0, 0, 0, 0, 0], -0.5)];
    assert!(are_numbered(&entries));
    assert!(!are_numbered(&[entries[0], scored([0, i32::MAX, -1, 0, 0, 0, 0, 0], 0.0)]));
    let hints =
        move_hints_at(&entries, Ok("stored".to_string()), "match", 5, 2, 3, "then").unwrap();
    assert_eq!((hints.die1, hints.die2), (2, 5));
    assert_eq!(hints.alternatives.len(), 2);
    let best = Reading { value: 0.25, range: Range::Equity, field: "MoveEquity[best]" };
    for (i, hint) in hints.alternatives.iter().enumerate() {
        assert_eq!(hint.gnubg_position_id, "stored");
        assert_eq!(hint.gnubg_match_id, "match");
        assert_eq!((hint.die1, hint.die2), (2, 5));
        assert_eq!(hint.evaluation_engine_id, 0);
        assert_eq!(hint.plies, 3);
        assert_eq!(hint.rank, i as i32 + 1);
        assert_eq!(hint.evaluated_utc, "then");
        let equity =
            Reading { value: entries[i].equity, range: Range::Equity, field: "MoveEquity" };
        assert_eq!(hint.equity, Figure::Value(equity));
        assert_eq!(hint.error_vs_best, Figure::Gain { of: best, over: equity });
        assert_eq!(hint.win_prob, value(0.5, Range::Probability, "WinProb"));
        assert_eq!(hint.win_gammon, value(0.2, Range::Probability, "WinGammon"));
        assert_eq!(hint.win_backgammon, value(0.1, Range::Probability, "WinBackgammon"));
        assert_eq!(hint.lose_gammon, value(0.15, Range::Probability, "LoseGammon"));
        assert_eq!(hint.lose_backgammon, value(0.05, Range::Probability, "LoseBackgammon"));
    }
    assert_eq!(hints.alternatives[0].move_notation, "24/23 13/10");
    assert_eq!(hints.alternatives[1].move_notation, "6/off");
    let swapped =
        move_hints_at(&entries, Ok("stored".to_string()), "match", 2, 5, 3, "then").unwrap();
    assert_eq!(swapped, hints);
}

#[test]
fn moves_need_an_identifier_to_be_stored_under() {
    let entries = [scored([-1; 8], 0.0)];
    let result = move_hints_at(&entries, Err("bad id".to_string()), "match", 1, 1, 0, "");
    assert_eq!(result.unwrap_err(), "bad id");
    let none: [ScoredMove<f64>; 0] = [];
    let empty = move_hints(&none, Ok(String::new()), "", 1, 2, 0).unwrap();
    assert!(empty.alternatives.is_empty());
}

#[test]
fn moves_are_dated() {
    assert_eq!(utc_at(0), "1970-01-01T00:00:00Z");
    assert_eq!(utc_at(1_546_300_800_500_000_000), "2019-01-01T00:00:00.5Z");
    // The year 10000 has no RFC 3339 form, and the last moment no date.
    assert_eq!(utc_at(253_402_300_800_000_000_000), "");
    assert_eq!(utc_at(i128::MAX), "");
    let now = utc_now();
    assert!(now.ends_with('Z') && now.as_str() > "2024", "{now}");
    let entries = [scored([-1; 8], 0.0)];
    let hints = move_hints(&entries, Ok("stored".to_string()), "match", 1, 2, 0).unwrap();
    assert!(hints.alternatives[0].evaluated_utc >= now);
}

#[test]
fn the_first_of_equal_plays_is_the_played_one() {
    let entries = [
        scored([5, 4, 5, 4, -1, -1, -1, -1], 0.3),
        scored([7, 4, 5, 4, -1, -1, -1, -1], 0.2),
        scored([5, 4, 7, 4, -1, -1, -1, -1], 0.1),
    ];
    let moves =
        move_hints_at(&entries, Ok("stored".to_string()), "match", 3, 1, 0, "").unwrap();
    assert_eq!(analyze_payload(moves.clone(), "6/5 8/5*").unwrap().played.rank, 2);
    // One hop twice is another play than each hop once.
    assert_eq!(analyze_payload(moves, "6/5 6/5").unwrap().played.rank, 1);
}
