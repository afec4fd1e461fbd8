//! The level catalog: which levels there are, which methods each answers, and
//! what a request for a level resolves to.
//!
//! Levels are plies in gnubg's counting, in which 0-ply is the raw neural net,
//! and the rollout, which answers for positions alone.

pub mod kinds;
pub mod levels;

use vstd::prelude::*;

use crate::ffi::{error_text, GnubgApiError, RolloutSettings};
use crate::json::JsonValue;
use crate::methods;
use crate::options::{no_options, read_options, RolloutOptions};
use crate::text::{chars_of, quoted, quoted_text, same_text};

verus! {

pub const PROTOCOL_VERSION: &'static str = "0.1";

pub const ENGINE_FAMILY: &'static str = "gnubg";

pub const ENGINE_DISPLAY_NAME: &'static str = "GNU Backgammon";

/// The evaluator is one global net with static caches: one call at a time.
pub const MAX_PARALLEL: u32 = 1;

/// Plies are counted gnubg's way: 0-ply is the raw neural net.
pub const PLY_COUNTING: &'static str = "gnubg";

pub const EQUITY_CONVENTION: &'static str = "contract";

pub const WEIGHTS_FILENAME: &'static str = "gnubg.weights";

pub const WEIGHTS_BINARY_FILENAME: &'static str = "gnubg.wd";

/// The level that a request resolved to.
#[derive(Debug, Clone, Copy, PartialEq)]
pub enum Resolved {
    Ply(u32),
    Rollout(RolloutOptions),
}

impl Resolved {
    /// The stamp of a result's plies: the depth of a ply level, as the `i32`
    /// with the same bits, and 0 for the rollout.
    pub open spec fn stamp(self) -> int {
        match self {
            Resolved::Ply(depth) => if depth <= i32::MAX {
                depth as int
            } else {
                depth - 0x1_0000_0000
            },
            Resolved::Rollout(_) => 0,
        }
    }

    /// Stamps a result's plies: [`Resolved::stamp`].
    pub fn plies_stamp(&self) -> (plies: i32)
        ensures
            plies == self.stamp(),
    {
        match self {
            Resolved::Ply(depth) => {
                let depth: u32 = *depth;
                let plies: i32 = depth as i32;
                assert(plies == if depth <= 0x7fff_ffff {
                    depth as int
                } else {
                    depth - 0x1_0000_0000
                }) by (bit_vector)
                    requires
                        plies == depth as i32,
                ;
                plies
            },
            Resolved::Rollout(_) => 0,
        }
    }
}

/// Why a request for a level is refused.
#[derive(Debug)]
pub enum LevelError {
    UnknownLevel(String),
    InvalidOptions(String),
    /// The level does not answer the method.
    MethodNotSupported { level: String, method: String },
}

/// What a [`LevelError`] says.
pub enum LevelFault {
    UnknownLevel(Seq<char>),
    InvalidOptions(Seq<char>),
    MethodNotSupported { level: Seq<char>, method: Seq<char> },
}

impl View for LevelError {
    type V = LevelFault;

    open spec fn view(&self) -> LevelFault {
        match *self {
            LevelError::UnknownLevel(level) => LevelFault::UnknownLevel(level@),
            LevelError::InvalidOptions(message) => LevelFault::InvalidOptions(message@),
            LevelError::MethodNotSupported { level, method } => LevelFault::MethodNotSupported {
                level: level@,
                method: method@,
            },
        }
    }
}

/// The methods that a ply level answers, where it does not answer all.
///
/// In gnubg's counting, odd plies leave the opponent on roll at the leaves and
/// bias cube equities, so they do not answer for the cube. The 4-ply level is
/// there for deep cube decisions; scoring a full move list with it would take
/// too long.
pub open spec fn methods_at(depth: nat) -> Option<Seq<&'static str>> {
    if depth == 1 || depth == 3 {
        Some(seq![methods::EVALUATE_POSITION, methods::EVALUATE_MOVES, methods::ANALYZE_MOVE])
    } else if depth == 4 {
        Some(seq![methods::EVALUATE_POSITION, methods::EVALUATE_CUBE])
    } else {
        None
    }
}

/// Whether a ply level answers a method.
pub open spec fn ply_answers(depth: nat, method: Seq<char>) -> bool {
    match methods_at(depth) {
        Some(names) => exists|i: int| 0 <= i < names.len() && (#[trigger] names[i])@ == method,
        None => true,
    }
}

/// The methods that a ply level answers, where it does not answer all:
/// [`methods_at`].
pub fn ply_methods(depth: u32) -> (names: Option<&'static [&'static str]>)
    ensures
        match names {
            Some(names) => methods_at(depth as nat) == Some(names@),
            None => methods_at(depth as nat) is None,
        },
{
    if depth == 1 || depth == 3 {
        let names: &'static [&'static str] = &[
            methods::EVALUATE_POSITION,
            methods::EVALUATE_MOVES,
            methods::ANALYZE_MOVE,
        ];
        assert(Some(names@) =~~= methods_at(depth as nat));
        Some(names)
    } else if depth == 4 {
        let names: &'static [&'static str] = &[methods::EVALUATE_POSITION, methods::EVALUATE_CUBE];
        assert(Some(names@) =~~= methods_at(depth as nat));
        Some(names)
    } else {
        None
    }
}

/// The depth of a ply level, by its identifier.
pub open spec fn depth_of(level: Seq<char>) -> Option<u32> {
    if level == levels::PLY_0@ {
        Some(0)
    } else if level == levels::PLY_1@ {
        Some(1)
    } else if level == levels::PLY_2@ {
        Some(2)
    } else if level == levels::PLY_3@ {
        Some(3)
    } else if level == levels::PLY_4@ {
        Some(4)
    } else {
        None
    }
}

/// What a request resolves to: a ply level that takes no options and answers
/// the method, or the rollout, which answers for positions and takes options.
pub open spec fn resolution(
    level: Seq<char>,
    method: Seq<char>,
    options: Option<JsonValue>,
) -> Result<Resolved, LevelFault> {
    match depth_of(level) {
        Some(depth) => if options is Some {
            Err(
                LevelFault::InvalidOptions(
                    "level "@ + quoted_text(level) + " is not configurable"@,
                ),
            )
        } else if !ply_answers(depth as nat, method) {
            Err(LevelFault::MethodNotSupported { level, method })
        } else {
            Ok(Resolved::Ply(depth))
        },
        None => if level == levels::ROLLOUT@ {
            if method != methods::EVALUATE_POSITION@ {
                Err(LevelFault::MethodNotSupported { level, method })
            } else {
                match options {
                    None => Ok(Resolved::Rollout(no_options())),
                    Some(value) => match read_options(value) {
                        Ok(options) => Ok(Resolved::Rollout(options)),
                        Err(message) => Err(LevelFault::InvalidOptions(message)),
                    },
                }
            }
        } else {
            Err(LevelFault::UnknownLevel(level))
        },
    }
}

/// The value that an optional reference refers to.
pub open spec fn referred(options: Option<&JsonValue>) -> Option<JsonValue> {
    match options {
        Some(value) => Some(*value),
        None => None,
    }
}

/// Whether a result is the one that a specification gives.
pub open spec fn resolves_to(
    result: Result<Resolved, LevelError>,
    expected: Result<Resolved, LevelFault>,
) -> bool {
    match result {
        Ok(resolved) => expected == Ok::<Resolved, LevelFault>(resolved),
        Err(error) => expected == Err::<Resolved, LevelFault>(error@),
    }
}

/// Whether one of `names` is `name`.
fn contains(names: &[&'static str], name: &str) -> (found: bool)
    ensures
        found == exists|i: int| 0 <= i < names@.len() && (#[trigger] names@[i])@ == name@,
{
    let mut i: usize = 0;
    while i < names.len()
        invariant
            i <= names@.len(),
            forall|j: int| 0 <= j < i ==> (#[trigger] names@[j])@ != name@,
        decreases names@.len() - i,
    {
        if same_text(names[i], name) {
            assert(names@[i as int]@ == name@);
            return true;
        }
        i = i + 1;
    }
    false
}

/// Resolves a ply level.
fn resolve_ply(level_id: &str, depth: u32, method: &str, options: Option<&JsonValue>) -> (result:
    Result<Resolved, LevelError>)
    requires
        depth_of(level_id@) == Some(depth),
    ensures
        resolves_to(result, resolution(level_id@, method@, referred(options))),
{
    if options.is_some() {
        let mut message = "level ".to_owned();
        message.append(quoted(level_id).as_str());
        message.append(" is not configurable");
        return Err(LevelError::InvalidOptions(message));
    }
    match ply_methods(depth) {
        Some(allowed) => {
            assert(methods_at(depth as nat) == Some(allowed@));
            if !contains(allowed, method) {
                return Err(
                    LevelError::MethodNotSupported {
                        level: level_id.to_owned(),
                        method: method.to_owned(),
                    },
                );
            }
            assert(ply_answers(depth as nat, method@));
        },
        None => {},
    }
    Ok(Resolved::Ply(depth))
}

/// Resolves a request for a level: [`resolution`].
pub fn resolve_level(level_id: &str, method: &str, options: Option<&JsonValue>) -> (result: Result<
    Resolved,
    LevelError,
>)
    ensures
        resolves_to(result, resolution(level_id@, method@, referred(options))),
{
    if same_text(level_id, levels::PLY_0) {
        resolve_ply(level_id, 0, method, options)
    } else if same_text(level_id, levels::PLY_1) {
        resolve_ply(level_id, 1, method, options)
    } else if same_text(level_id, levels::PLY_2) {
        resolve_ply(level_id, 2, method, options)
    } else if same_text(level_id, levels::PLY_3) {
        resolve_ply(level_id, 3, method, options)
    } else if same_text(level_id, levels::PLY_4) {
        resolve_ply(level_id, 4, method, options)
    } else if same_text(level_id, levels::ROLLOUT) {
        if !same_text(method, methods::EVALUATE_POSITION) {
            return Err(
                LevelError::MethodNotSupported {
                    level: level_id.to_owned(),
                    method: method.to_owned(),
                },
            );
        }
        match options {
            None => Ok(Resolved::Rollout(RolloutOptions::default())),
            Some(value) => match RolloutOptions::from_json(value) {
                Ok(options) => Ok(Resolved::Rollout(options)),
                Err(message) => Err(LevelError::InvalidOptions(message)),
            },
        }
    } else {
        Err(LevelError::UnknownLevel(level_id.to_owned()))
    }
}

/// The engine as it reported itself at startup: the settings of a rollout that
/// a request does not set, and the native library's version.
#[derive(Debug)]
pub struct Engine {
    pub rollout_defaults: RolloutSettings,
    pub version: String,
}

/// A call of the native library.
#[derive(Debug)]
pub enum NativeCall {
    EvaluatePosition { position_id: String, match_id: String, n_plies: u32 },
    Rollout { position_id: String, match_id: String, settings: RolloutSettings },
    EvaluateCube { position_id: String, match_id: String, n_plies: u32 },
    ScoreMoves { position_id: String, match_id: String, die1: i32, die2: i32, n_plies: u32 },
}

/// A setting that a request may override.
pub open spec fn count_or(option: Option<u32>, default: u32) -> u32 {
    match option {
        Some(count) => count,
        None => default,
    }
}

/// A flag that a request may override, as the native library takes it.
pub open spec fn flag_or(option: Option<bool>, default: i32) -> i32 {
    match option {
        Some(true) => 1,
        Some(false) => 0,
        None => default,
    }
}

/// The settings of a rollout: what the options set, and the defaults of the
/// rest.
pub open spec fn settings_with(
    defaults: RolloutSettings,
    options: RolloutOptions,
) -> RolloutSettings {
    RolloutSettings {
        n_trials: count_or(options.trials, defaults.n_trials),
        cubeful: flag_or(options.cubeful, defaults.cubeful),
        variance_reduction: flag_or(options.variance_reduction, defaults.variance_reduction),
        chequer_plies: count_or(options.chequer_plies, defaults.chequer_plies),
        cube_plies: count_or(options.cube_plies, defaults.cube_plies),
        seed: count_or(options.seed, defaults.seed),
        truncate: flag_or(options.truncate, defaults.truncate),
        truncate_plies: count_or(options.truncate_plies, defaults.truncate_plies),
    }
}

/// Whether a call evaluates a position at a resolved level.
pub open spec fn evaluates_position(
    call: NativeCall,
    defaults: RolloutSettings,
    position: Seq<char>,
    match_state: Seq<char>,
    resolved: Resolved,
) -> bool {
    match resolved {
        Resolved::Ply(depth) => {
            &&& call matches NativeCall::EvaluatePosition { position_id, match_id, n_plies }
            &&& position_id@ == position
            &&& match_id@ == match_state
            &&& n_plies == depth
        },
        Resolved::Rollout(options) => {
            &&& call matches NativeCall::Rollout { position_id, match_id, settings }
            &&& position_id@ == position
            &&& match_id@ == match_state
            &&& settings == settings_with(defaults, options)
        },
    }
}

/// Whether a call evaluates a cube decision at a depth.
pub open spec fn evaluates_cube(
    call: NativeCall,
    position: Seq<char>,
    match_state: Seq<char>,
    depth: u32,
) -> bool {
    &&& call matches NativeCall::EvaluateCube { position_id, match_id, n_plies }
    &&& position_id@ == position
    &&& match_id@ == match_state
    &&& n_plies == depth
}

/// Whether a call scores the moves of a roll at a depth.
pub open spec fn scores_moves(
    call: NativeCall,
    position: Seq<char>,
    match_state: Seq<char>,
    roll: (i32, i32),
    depth: u32,
) -> bool {
    &&& call matches NativeCall::ScoreMoves { position_id, match_id, die1, die2, n_plies }
    &&& position_id@ == position
    &&& match_id@ == match_state
    &&& (die1, die2) == roll
    &&& n_plies == depth
}

impl Engine {
    /// The engine with what it reported.
    pub fn new(rollout_defaults: RolloutSettings, version: String) -> (engine: Engine)
        ensures
            engine.rollout_defaults == rollout_defaults,
            engine.version == version,
    {
        Engine { rollout_defaults, version }
    }

    /// The call that evaluates a position: a plain evaluation at a ply level's
    /// depth, or a rollout with what the options set and the defaults of the
    /// rest.
    pub fn evaluate_position(
        &self,
        position_id: &str,
        match_id: &str,
        resolved: &Resolved,
    ) -> (call: NativeCall)
        ensures
            evaluates_position(call, self.rollout_defaults, position_id@, match_id@, *resolved),
    {
        let position_id = position_id.to_owned();
        let match_id = match_id.to_owned();
        match resolved {
            Resolved::Ply(depth) => NativeCall::EvaluatePosition {
                position_id,
                match_id,
                n_plies: *depth,
            },
            Resolved::Rollout(options) => {
                let mut settings = self.rollout_defaults;
                if let Some(trials) = options.trials {
                    settings.n_trials = trials;
                }
                if let Some(cubeful) = options.cubeful {
                    settings.cubeful = native_flag(cubeful);
                }
                if let Some(reduction) = options.variance_reduction {
                    settings.variance_reduction = native_flag(reduction);
                }
                if let Some(chequer) = options.chequer_plies {
                    settings.chequer_plies = chequer;
                }
                if let Some(cube) = options.cube_plies {
                    settings.cube_plies = cube;
                }
                if let Some(seed) = options.seed {
                    settings.seed = seed;
                }
                if let Some(truncate) = options.truncate {
                    settings.truncate = native_flag(truncate);
                }
                if let Some(truncate_plies) = options.truncate_plies {
                    settings.truncate_plies = truncate_plies;
                }
                NativeCall::Rollout { position_id, match_id, settings }
            },
        }
    }

    /// The call that evaluates a cube decision.
    pub fn evaluate_cube(&self, position_id: &str, match_id: &str, n_plies: u32) -> (call:
        NativeCall)
        ensures
            evaluates_cube(call, position_id@, match_id@, n_plies),
    {
        NativeCall::EvaluateCube {
            position_id: position_id.to_owned(),
            match_id: match_id.to_owned(),
            n_plies,
        }
    }

    /// The call that scores the moves of a roll.
    pub fn scored_moves(
        &self,
        position_id: &str,
        match_id: &str,
        die1: i32,
        die2: i32,
        n_plies: u32,
    ) -> (call: NativeCall)
        ensures
            scores_moves(call, position_id@, match_id@, (die1, die2), n_plies),
    {
        NativeCall::ScoreMoves {
            position_id: position_id.to_owned(),
            match_id: match_id.to_owned(),
            die1,
            die2,
            n_plies,
        }
    }
}

/// A flag as the native library takes it.
fn native_flag(flag: bool) -> (native: i32)
    ensures
        native == if flag {
            1i32
        } else {
            0i32
        },
{
    if flag {
        1
    } else {
        0
    }
}

/// Whether a text holds the character NUL, which ends a native string.
pub open spec fn holds_nul(text: Seq<char>) -> bool {
    text.contains('\0')
}

/// Decides [`holds_nul`].
pub fn has_nul(text: &str) -> (nul: bool)
    ensures
        nul == holds_nul(text@),
{
    let chars = chars_of(text);
    let mut i: usize = 0;
    while i < chars.len()
        invariant
            i <= chars@.len(),
            chars@ == text@,
            forall|j: int| 0 <= j < i ==> chars@[j] != '\0',
        decreases chars@.len() - i,
    {
        if chars[i] == '\0' {
            assert(text@[i as int] == '\0');
            return true;
        }
        i = i + 1;
    }
    false
}

/// Whether a result is what the check of paths gives: the first that holds a NUL
/// is named.
pub open spec fn checks_paths(checked: Result<(), String>, paths: Seq<String>) -> bool {
    match checked {
        Ok(_) => forall|i: int| 0 <= i < paths.len() ==> !holds_nul(#[trigger] paths[i]@),
        Err(message) => exists|i: int|
            0 <= i < paths.len() && holds_nul(#[trigger] paths[i]@) && (forall|j: int|
                0 <= j < i ==> !holds_nul(#[trigger] paths[j]@)) && message@
                == "path contains a NUL byte: "@ + paths[i]@,
    }
}

/// Paths are passed exactly when none holds the character NUL; otherwise the
/// first that does is named, and none before it does.
pub proof fn law_native_paths(checked: Result<(), String>, paths: Seq<String>, k: int)
    requires
        checks_paths(checked, paths),
    ensures
        checked is Ok <==> forall|i: int|
            0 <= i < paths.len() ==> !(#[trigger] paths[i])@.contains('\0'),
        0 <= k < paths.len() && paths[k]@.contains('\0') && (forall|i: int|
            0 <= i < k ==> !(#[trigger] paths[i])@.contains('\0')) ==> (checked matches Err(message)
            && message@ == "path contains a NUL byte: "@ + paths[k]@),
{
    if checked is Err {
        let i = choose|i: int|
            0 <= i < paths.len() && holds_nul(#[trigger] paths[i]@) && (forall|j: int|
                0 <= j < i ==> !holds_nul(#[trigger] paths[j]@)) && checked->Err_0@
                == "path contains a NUL byte: "@ + paths[i]@;
        assert(paths[i]@.contains('\0'));
        if 0 <= k < paths.len() && paths[k]@.contains('\0') && (forall|j: int|
            0 <= j < k ==> !(#[trigger] paths[j])@.contains('\0')) {
            assert(holds_nul(paths[k]@));
            assert(i == k);
        }
    } else {
        assert forall|i: int| 0 <= i < paths.len() implies !(#[trigger] paths[i])@.contains(
            '\0',
        ) by {
            assert(!holds_nul(paths[i]@));
        }
    }
}

/// Checks the paths that the native library is given: the first that holds a
/// NUL cannot be passed.
pub fn check_native_paths(paths: &Vec<String>) -> (checked: Result<(), String>)
    ensures
        checks_paths(checked, paths@),
{
    let mut i: usize = 0;
    while i < paths.len()
        invariant
            i <= paths@.len(),
            forall|j: int| 0 <= j < i ==> !holds_nul(#[trigger] paths@[j]@),
        decreases paths@.len() - i,
    {
        if has_nul(paths[i].as_str()) {
            let mut message = "path contains a NUL byte: ".to_owned();
            message.append(paths[i].as_str());
            assert(holds_nul(paths@[i as int]@));
            return Err(message);
        }
        i = i + 1;
    }
    Ok(())
}

/// What the native library answered while it was started.
#[derive(Debug)]
pub enum StartupEvent {
    Created(Result<(), GnubgApiError>),
    Initialized(Result<(), GnubgApiError>),
    Reported { rollout_defaults: RolloutSettings, version: String },
}

/// What is done next to start the native library.
#[derive(Debug)]
pub enum StartupStep {
    Initialize,
    AskForReport,
    Serve(Engine),
}

/// Whether a result is what follows an event: the next step, or the failure that
/// ends the startup.
pub open spec fn follows(step: Result<StartupStep, String>, event: StartupEvent) -> bool {
    match event {
        StartupEvent::Created(Ok(_)) => step == Ok::<StartupStep, String>(StartupStep::Initialize),
        StartupEvent::Created(Err(error)) => step matches Err(message) && message@
            == "gnubgapi_create failed: "@ + error_text(error),
        StartupEvent::Initialized(Ok(_)) => step == Ok::<StartupStep, String>(
            StartupStep::AskForReport,
        ),
        StartupEvent::Initialized(Err(error)) => step matches Err(message) && message@
            == "gnubgapi_init failed: "@ + error_text(error),
        StartupEvent::Reported { rollout_defaults, version } => step == Ok::<StartupStep, String>(
            StartupStep::Serve(Engine { rollout_defaults, version }),
        ),
    }
}

/// Starts the native library step by step: a context is created, then
/// initialized, then asked for its defaults and version, and then it serves. A
/// step that fails ends the startup.
pub fn startup_step(event: StartupEvent) -> (step: Result<StartupStep, String>)
    ensures
        follows(step, event),
{
    match event {
        StartupEvent::Created(Ok(_)) => Ok(StartupStep::Initialize),
        StartupEvent::Created(Err(error)) => {
            let mut message = "gnubgapi_create failed: ".to_owned();
            message.append(error.to_text().as_str());
            Err(message)
        },
        StartupEvent::Initialized(Ok(_)) => Ok(StartupStep::AskForReport),
        StartupEvent::Initialized(Err(error)) => {
            let mut message = "gnubgapi_init failed: ".to_owned();
            message.append(error.to_text().as_str());
            Err(message)
        },
        StartupEvent::Reported { rollout_defaults, version } => Ok(
            StartupStep::Serve(Engine::new(rollout_defaults, version)),
        ),
    }
}

} // verus!
