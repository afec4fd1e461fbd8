//! The lines that are logged of an evaluation request: one when it was received
//! and one when it is done.

use vstd::prelude::*;

use crate::engine::{has_nul, holds_nul, resolution, resolve_level, Engine, Resolved};
use crate::evaluation::{starts, EvaluateParams, Evaluation, Failure, FailureKind};
use crate::evaluation_laws::{ids_right, lemma_one_depth, level_takes};
use crate::level_laws::{
    is_level, law_other_levels, law_ply_levels, law_rollout_level, lemma_level_ids_differ,
    names_depth,
};
use crate::text::{decimal, decimal_text, signed_decimal, signed_decimal_text};

verus! {

/// How the dice of a request are logged: where both are given.
pub open spec fn dice_text(die1: Option<i32>, die2: Option<i32>) -> Seq<char> {
    match (die1, die2) {
        (Some(die1), Some(die2)) => " Die="@ + signed_decimal(die1 as int) + ","@ + signed_decimal(
            die2 as int,
        ),
        _ => Seq::empty(),
    }
}

/// The line of a request that was received, with a summary of what it is
/// evaluated with.
pub open spec fn received_text(
    method: Seq<char>,
    params: EvaluateParams,
    summary: Seq<char>,
) -> Seq<char> {
    "Recv "@ + method + " Level="@ + params.level@ + " "@ + summary + dice_text(
        params.die1,
        params.die2,
    ) + " Pos="@ + params.position_id@ + " Match="@ + params.match_id@
}

/// Writes the line of a request that was received: [`received_text`].
pub fn received_line(method: &str, params: &EvaluateParams, summary: &str) -> (line: String)
    ensures
        line@ == received_text(method@, *params, summary@),
{
    let mut dice = String::new();
    if let (Some(die1), Some(die2)) = (params.die1, params.die2) {
        dice.append(" Die=");
        dice.append(signed_decimal_text(die1).as_str());
        dice.append(",");
        dice.append(signed_decimal_text(die2).as_str());
    }
    assert(dice@ =~= dice_text(params.die1, params.die2));
    let mut line = "Recv ".to_owned();
    line.append(method);
    line.append(" Level=");
    line.append(params.level.as_str());
    line.append(" ");
    line.append(summary);
    line.append(dice.as_str());
    line.append(" Pos=");
    line.append(params.position_id.as_str());
    line.append(" Match=");
    line.append(params.match_id.as_str());
    line
}

/// The level of a request whose receipt is logged: requests are logged once
/// their identifiers are right and their level is resolved.
pub open spec fn received_level(
    enabled: bool,
    method: Seq<char>,
    params: EvaluateParams,
    position_fault: Option<String>,
    match_fault: Option<String>,
) -> Option<Resolved> {
    if !enabled || position_fault is Some || match_fault is Some || holds_nul(params.position_id@)
        || holds_nul(params.match_id@) {
        None
    } else {
        match resolution(params.level@, method, params.level_options) {
            Ok(resolved) => Some(resolved),
            Err(_) => None,
        }
    }
}

/// Decides whether the receipt of a request is logged, and gives the level that
/// it was resolved to where it is: [`received_level`].
pub fn received_due(
    enabled: bool,
    method: &str,
    params: &EvaluateParams,
    position_fault: &Option<String>,
    match_fault: &Option<String>,
) -> (level: Option<Resolved>)
    ensures
        level == received_level(enabled, method@, *params, *position_fault, *match_fault),
{
    if !enabled || position_fault.is_some() || match_fault.is_some() || has_nul(
        params.position_id.as_str(),
    ) || has_nul(params.match_id.as_str()) {
        return None;
    }
    match resolve_level(params.level.as_str(), method, params.level_options.as_ref()) {
        Ok(resolved) => Some(resolved),
        Err(_) => None,
    }
}

/// How the outcome of a request is logged.
pub open spec fn outcome_text(failed: Option<Seq<char>>) -> Seq<char> {
    match failed {
        Some(message) => "FAILED "@ + message,
        None => "ok"@,
    }
}

/// The line of a request that is done, with what it failed of, where it did, and
/// the time that it took.
pub open spec fn done_text(
    method: Seq<char>,
    level: Seq<char>,
    failed: Option<Seq<char>>,
    millis: nat,
) -> Seq<char> {
    "Done "@ + method + " Level="@ + level + " "@ + outcome_text(failed) + " in "@ + decimal(millis)
        + " ms"@
}

/// The text of a failure, where there is one.
pub open spec fn failed_text(failed: Option<&str>) -> Option<Seq<char>> {
    match failed {
        Some(message) => Some(message@),
        None => None,
    }
}

/// Writes the line of a request that is done: [`done_text`].
pub fn done_line(method: &str, level: &str, failed: Option<&str>, millis: u64) -> (line: String)
    ensures
        line@ == done_text(method@, level@, failed_text(failed), millis as nat),
{
    let outcome = match failed {
        Some(message) => {
            let mut outcome = "FAILED ".to_owned();
            outcome.append(message);
            outcome
        },
        None => "ok".to_owned(),
    };
    let mut line = "Done ".to_owned();
    line.append(method);
    line.append(" Level=");
    line.append(level);
    line.append(" ");
    line.append(outcome.as_str());
    line.append(" in ");
    line.append(decimal_text(millis).as_str());
    line.append(" ms");
    line
}

/// Whether the end of a request is logged: where it was evaluated, with or
/// without success. A request that was refused is not.
pub open spec fn is_done<R>(enabled: bool, result: Result<R, Failure>) -> bool {
    enabled && match result {
        Ok(_) => true,
        Err(failure) => failure.kind == FailureKind::EvaluationFailed,
    }
}

/// Decides whether the end of a request is logged, and gives the line where it
/// is: [`is_done`] and [`done_text`].
pub fn done_due<R>(
    enabled: bool,
    method: &str,
    level: &str,
    result: &Result<R, Failure>,
    millis: u64,
) -> (line: Option<String>)
    ensures
        match line {
            Some(line) => is_done(enabled, *result) && line@ == done_text(
                method@,
                level@,
                match *result {
                    Ok(_) => None,
                    Err(failure) => Some(failure.message@),
                },
                millis as nat,
            ),
            None => !is_done(enabled, *result),
        },
{
    if !enabled {
        return None;
    }
    match result {
        Ok(_) => Some(done_line(method, level, None, millis)),
        Err(failure) => match failure.kind {
            FailureKind::EvaluationFailed => Some(
                done_line(method, level, Some(failure.message.as_str()), millis),
            ),
            _ => None,
        },
    }
}

/// A request that starts is logged as received, at the level that it runs at; one
/// that does not start is not logged as done. So whatever is logged as done was
/// logged as received.
pub proof fn law_done_was_received(
    enabled: bool,
    result: Result<Evaluation, Failure>,
    engine: Engine,
    method: Seq<char>,
    params: EvaluateParams,
    position_fault: Option<String>,
    match_fault: Option<String>,
)
    requires
        starts(result, engine, method, params, position_fault, match_fault),
    ensures
        enabled && result is Ok ==> received_level(
            enabled,
            method,
            params,
            position_fault,
            match_fault,
        ) == Some(result->Ok_0.resolved),
        result is Err ==> !is_done(enabled, result),
{
}

/// Without the switch nothing is logged.
pub proof fn law_nothing_logged_unasked<R>(
    method: Seq<char>,
    params: EvaluateParams,
    position_fault: Option<String>,
    match_fault: Option<String>,
    result: Result<R, Failure>,
)
    ensures
        received_level(false, method, params, position_fault, match_fault) is None,
        !is_done(false, result),
{
}

/// With the switch on, a receipt is logged exactly when the identifiers are
/// right and the level takes the method and the options, at the depth that the
/// level names.
pub proof fn law_received_exactly_when(
    method: Seq<char>,
    params: EvaluateParams,
    position_fault: Option<String>,
    match_fault: Option<String>,
    depth: int,
)
    ensures
        received_level(true, method, params, position_fault, match_fault) is Some <==> ids_right(
            params,
            position_fault,
            match_fault,
        ) && level_takes(params, method),
        names_depth(params.level@, depth) ==> (received_level(
            true,
            method,
            params,
            position_fault,
            match_fault,
        ) matches Some(resolved) ==> resolved == Resolved::Ply(depth as u32)),
{
    let level = params.level@;
    let options = params.level_options;
    lemma_level_ids_differ();
    lemma_one_depth(level);
    if level == "rollout"@ {
        law_rollout_level(method, options);
    } else if is_level(level) {
        let named = choose|depth: int| names_depth(level, depth);
        assert(names_depth(level, named));
        law_ply_levels(level, named as u32, method, options);
    } else {
        law_other_levels(level, method, options);
    }
}

/// With the switch on, the end of a request is logged where it succeeded or its
/// evaluation failed, and not where it was refused.
pub proof fn law_done_exactly_when<R>(result: Result<R, Failure>)
    ensures
        result is Ok ==> is_done(true, result),
        result matches Err(failure) ==> (is_done(true, result) <==> failure.kind
            == FailureKind::EvaluationFailed),
{
}

/// What the lines say, in their order: the method, the level, what it is
/// evaluated with, the dice where both are there, the position and the match;
/// and the method, the level, the outcome and the time.
pub proof fn law_log_lines(
    method: Seq<char>,
    params: EvaluateParams,
    text: Seq<char>,
    millis: nat,
)
    ensures
        ({
            let dice = match (params.die1, params.die2) {
                (Some(a), Some(b)) => " Die="@ + signed_decimal(a as int) + ","@ + signed_decimal(
                    b as int,
                ),
                _ => Seq::<char>::empty(),
            };
            received_text(method, params, text) == "Recv "@ + method + " Level="@ + params.level@
                + " "@ + text + dice + " Pos="@ + params.position_id@ + " Match="@
                + params.match_id@
        }),
        done_text(method, text, None, millis) == "Done "@ + method + " Level="@ + text + " "@
            + "ok"@ + " in "@ + decimal(millis) + " ms"@,
        forall|message: Seq<char>| #[trigger]
            done_text(method, text, Some(message), millis) == "Done "@ + method + " Level="@ + text
                + " "@ + ("FAILED "@ + message) + " in "@ + decimal(millis) + " ms"@,
{
}

} // verus!
