//! What goes into the native library and what comes out of it, as plain values.
//! A type parameter stands for the native library's floating-point numbers,
//! which are passed on and never computed with.

pub mod cube_decision;
pub mod equity_index;
pub mod outputs;

use vstd::prelude::*;

use crate::text::{decimal, decimal_text, signed_decimal, signed_decimal_text};

verus! {

/// The status of a native call that succeeded.
pub const GNUBGAPI_OK: i32 = 0;

/// How many numbers an evaluation has.
pub const NUM_OUTPUTS: usize = 7;

/// How many scored moves the native library may write.
pub const MAX_MOVES: usize = 3060;

/// How many points a native move has.
pub const MOVE_STEPS: usize = 8;

/// What a rollout is run with.
#[derive(Debug, Clone, Copy, PartialEq, Eq)]
pub struct RolloutSettings {
    pub n_trials: u32,
    pub cubeful: i32,
    pub variance_reduction: i32,
    pub chequer_plies: u32,
    pub cube_plies: u32,
    pub seed: u32,
    pub truncate: i32,
    pub truncate_plies: u32,
}

/// A legal move.
#[derive(Debug, Clone, Copy)]
pub struct NativeMove {
    pub an_move: [i32; 8],
    pub n_submoves: u32,
    pub pips: u32,
}

/// A legal move with its equity and the five outcome probabilities.
#[derive(Debug, Clone, Copy)]
pub struct ScoredMove<T> {
    pub mv: NativeMove,
    pub equity: T,
    pub probs: [T; 5],
}

/// A cube decision with the evaluations and equities behind it.
#[derive(Debug, Clone, Copy)]
pub struct CubeDecisionResult<T> {
    pub cubeful_outputs: [[T; 7]; 2],
    pub equities: [T; 4],
    pub decision: i32,
}

/// A native call that failed: its status, and what the library said of it.
#[derive(Debug, Clone)]
pub struct GnubgApiError {
    pub code: i32,
    pub message: String,
}

/// How a failed native call is reported.
pub open spec fn error_text(error: GnubgApiError) -> Seq<char> {
    "gnubgapi error "@ + signed_decimal(error.code as int) + ": "@ + error.message@
}

impl GnubgApiError {
    /// Reports a failed native call: [`error_text`].
    pub fn to_text(&self) -> (text: String)
        ensures
            text@ == error_text(*self),
    {
        let mut text = "gnubgapi error ".to_owned();
        text.append(signed_decimal_text(self.code).as_str());
        text.append(": ");
        text.append(self.message.as_str());
        text
    }
}

/// What the library last said, which may be nothing.
pub open spec fn last_words(last_error: Option<String>) -> Seq<char> {
    match last_error {
        Some(message) => message@,
        None => Seq::empty(),
    }
}

/// Whether a result is what a native call with a status comes to.
pub open spec fn comes_to<R>(
    result: Result<R, GnubgApiError>,
    code: i32,
    output: R,
    last_error: Option<String>,
) -> bool {
    match result {
        Ok(given) => code == GNUBGAPI_OK && given == output,
        Err(error) => {
            &&& code != GNUBGAPI_OK
            &&& error.code == code
            &&& error.message@ == last_words(last_error)
        },
    }
}

/// A native call succeeded exactly when its status is 0, and then gives its
/// output; otherwise the status and the library's last words are reported.
pub proof fn law_native_status<R>(
    result: Result<R, GnubgApiError>,
    code: i32,
    output: R,
    last_error: Option<String>,
)
    requires
        comes_to(result, code, output, last_error),
    ensures
        code == 0 ==> result == Ok::<R, GnubgApiError>(output),
        code != 0 ==> (result matches Err(error) && error.code == code && (last_error matches Some(
            message,
        ) ==> error.message@ == message@) && (last_error is None ==> error.message@.len() == 0)),
{
}

/// Whether a result is what the creation of a context comes to.
pub open spec fn creation_comes_to(
    result: Result<(), GnubgApiError>,
    created: bool,
    last_error: Option<String>,
) -> bool {
    match result {
        Ok(_) => created,
        Err(error) => {
            &&& !created
            &&& error.code == GNUBGAPI_OK
            &&& error.message@ == last_words(last_error)
        },
    }
}

/// A context that was not created is a failure with status 0 and the library's
/// last words, and one that was created is none.
pub proof fn law_creation(
    result: Result<(), GnubgApiError>,
    created: bool,
    last_error: Option<String>,
)
    requires
        creation_comes_to(result, created, last_error),
    ensures
        created <==> result is Ok,
        result matches Err(error) ==> error.code == 0 && (last_error matches Some(message)
            ==> error.message@ == message@) && (last_error is None ==> error.message@.len() == 0),
{
}

/// What a native call with a status comes to: its output where the status is
/// that of success, and otherwise the status with what the library last said,
/// which may be nothing.
pub fn native_result<R>(code: i32, output: R, last_error: Option<String>) -> (result: Result<
    R,
    GnubgApiError,
>)
    ensures
        comes_to(result, code, output, last_error),
{
    if code == GNUBGAPI_OK {
        Ok(output)
    } else {
        let message = match last_error {
            Some(message) => message,
            None => String::new(),
        };
        Err(GnubgApiError { code, message })
    }
}

/// What the creation of a context comes to: where there is none, the failure
/// has the status of success, for creating returns no status, and what the
/// library last said, which may be nothing.
pub fn creation_result(created: bool, last_error: Option<String>) -> (result: Result<
    (),
    GnubgApiError,
>)
    ensures
        creation_comes_to(result, created, last_error),
{
    if created {
        Ok(())
    } else {
        let message = match last_error {
            Some(message) => message,
            None => String::new(),
        };
        Err(GnubgApiError { code: GNUBGAPI_OK, message })
    }
}

/// The library's version, as it is written.
pub open spec fn version_of(major: u32, minor: u32, patch: u32) -> Seq<char> {
    decimal(major as nat) + "."@ + decimal(minor as nat) + "."@ + decimal(patch as nat)
}

/// Writes the library's version: [`version_of`].
pub fn version_text(major: u32, minor: u32, patch: u32) -> (text: String)
    ensures
        text@ == version_of(major, minor, patch),
{
    let mut text = decimal_text(major as u64);
    text.append(".");
    text.append(decimal_text(minor as u64).as_str());
    text.append(".");
    text.append(decimal_text(patch as u64).as_str());
    text
}

} // verus!
