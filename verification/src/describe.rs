//! The engine's description of itself: who it is and which levels it serves.

use vstd::prelude::*;

use crate::engine::{
    kinds, levels, methods_at, ply_methods, Engine, ENGINE_DISPLAY_NAME, ENGINE_FAMILY,
    EQUITY_CONVENTION, MAX_PARALLEL, PLY_COUNTING, PROTOCOL_VERSION,
};
use crate::ffi::RolloutSettings;
use crate::methods;
use crate::text::views;

verus! {

/// Who the engine is.
#[derive(Debug)]
pub struct EngineIdentity {
    pub family: String,
    pub display_name: String,
    pub version: String,
    pub build: String,
}

/// How its numbers are to be read.
#[derive(Debug)]
pub struct Conventions {
    pub ply_counting: String,
    pub equity: String,
}

/// What a rollout is run with unless a request says otherwise.
#[derive(Debug, Clone, Copy, PartialEq, Eq)]
pub struct RolloutParams {
    pub trials: u32,
    pub truncation: u32,
    pub variance_reduction: bool,
    pub checker_ply: Option<u32>,
    pub cube_ply: Option<u32>,
}

/// A level. Where it lists no methods it answers all.
#[derive(Debug)]
pub struct Level {
    pub id: String,
    pub kind: String,
    pub display_name: Option<String>,
    pub ply_depth: Option<u32>,
    pub rollout: Option<RolloutParams>,
    pub methods: Option<Vec<String>>,
    pub configurable: bool,
    pub supports_progress: bool,
    pub supports_cancel: bool,
}

/// The whole description.
#[derive(Debug)]
pub struct Describe {
    pub protocol_version: String,
    pub engine: EngineIdentity,
    pub max_parallel: u32,
    pub conventions: Conventions,
    pub levels: Vec<Level>,
}

/// The identifier of the ply level of a depth.
pub open spec fn ply_id(depth: int) -> Seq<char> {
    if depth == 0 {
        levels::PLY_0@
    } else if depth == 1 {
        levels::PLY_1@
    } else if depth == 2 {
        levels::PLY_2@
    } else if depth == 3 {
        levels::PLY_3@
    } else {
        levels::PLY_4@
    }
}

/// The texts of a list of names.
pub open spec fn texts(names: Seq<&'static str>) -> Seq<Seq<char>> {
    names.map_values(|name: &'static str| name@)
}

/// Whether a level lists exactly these methods.
pub open spec fn lists(level: Level, names: Option<Seq<&'static str>>) -> bool {
    match names {
        Some(names) => level.methods matches Some(listed) && views(listed@) == texts(names),
        None => level.methods is None,
    }
}

/// Whether a level is the ply level of a depth.
pub open spec fn is_ply_level(level: Level, depth: int) -> bool {
    &&& level.id@ == ply_id(depth)
    &&& level.kind@ == kinds::PLY@
    &&& level.display_name is None
    &&& level.ply_depth == Some(depth as u32)
    &&& level.rollout is None
    &&& lists(level, methods_at(depth as nat))
    &&& !level.configurable
    &&& !level.supports_progress
    &&& !level.supports_cancel
}

/// The parameters of a rollout with the given settings: its truncation is that
/// of the settings where they truncate, and 0 otherwise.
pub open spec fn params_of(settings: RolloutSettings) -> RolloutParams {
    RolloutParams {
        trials: settings.n_trials,
        truncation: if settings.truncate != 0 {
            settings.truncate_plies
        } else {
            0
        },
        variance_reduction: settings.variance_reduction != 0,
        checker_ply: Some(settings.chequer_plies),
        cube_ply: Some(settings.cube_plies),
    }
}

/// Whether a level is the rollout level of an engine with the given defaults.
pub open spec fn is_rollout_level(level: Level, defaults: RolloutSettings) -> bool {
    &&& level.id@ == levels::ROLLOUT@
    &&& level.kind@ == kinds::ROLLOUT@
    &&& level.display_name is None
    &&& level.ply_depth is None
    &&& level.rollout == Some(params_of(defaults))
    &&& lists(level, Some(seq![methods::EVALUATE_POSITION]))
    &&& level.configurable
    &&& !level.supports_progress
    &&& !level.supports_cancel
}

/// Whether levels are the catalog: the ply levels by depth, then the rollout.
pub open spec fn is_catalog(levels: Seq<Level>, defaults: RolloutSettings) -> bool {
    &&& levels.len() == 6
    &&& forall|depth: int| 0 <= depth < 5 ==> is_ply_level(#[trigger] levels[depth], depth)
    &&& is_rollout_level(levels[5], defaults)
}

/// Whether a description is that of an engine in a build.
pub open spec fn describes(description: Describe, engine: Engine, build: Seq<char>) -> bool {
    &&& description.protocol_version@ == PROTOCOL_VERSION@
    &&& description.engine.family@ == ENGINE_FAMILY@
    &&& description.engine.display_name@ == ENGINE_DISPLAY_NAME@
    &&& description.engine.version@ == engine.version@
    &&& description.engine.build@ == build
    &&& description.max_parallel == MAX_PARALLEL
    &&& description.conventions.ply_counting@ == PLY_COUNTING@
    &&& description.conventions.equity@ == EQUITY_CONVENTION@
    &&& is_catalog(description.levels@, engine.rollout_defaults)
}

/// Owned copies of names.
fn owned(names: &[&'static str]) -> (copies: Vec<String>)
    ensures
        views(copies@) == texts(names@),
{
    let mut copies: Vec<String> = Vec::new();
    let mut i: usize = 0;
    while i < names.len()
        invariant
            i <= names@.len(),
            views(copies@) == texts(names@).take(i as int),
        decreases names@.len() - i,
    {
        let ghost before = views(copies@);
        copies.push(names[i].to_owned());
        assert(views(copies@) =~= before.push(names@[i as int]@));
        assert(views(copies@) =~= texts(names@).take(i + 1));
        i = i + 1;
    }
    assert(texts(names@).take(i as int) =~= texts(names@));
    copies
}

/// The ply level of a depth.
fn ply_level(id: &str, depth: u32) -> (level: Level)
    requires
        depth < 5,
        id@ == ply_id(depth as int),
    ensures
        is_ply_level(level, depth as int),
{
    let methods = match ply_methods(depth) {
        Some(allowed) => Some(owned(allowed)),
        None => None,
    };
    Level {
        id: id.to_owned(),
        kind: kinds::PLY.to_owned(),
        display_name: None,
        ply_depth: Some(depth),
        rollout: None,
        methods,
        configurable: false,
        supports_progress: false,
        supports_cancel: false,
    }
}

/// The rollout level of an engine with the given defaults.
fn rollout_level(defaults: &RolloutSettings) -> (level: Level)
    ensures
        is_rollout_level(level, *defaults),
{
    let answered: &'static [&'static str] = &[methods::EVALUATE_POSITION];
    assert(answered@ =~= seq![methods::EVALUATE_POSITION]);
    Level {
        id: levels::ROLLOUT.to_owned(),
        kind: kinds::ROLLOUT.to_owned(),
        display_name: None,
        ply_depth: None,
        rollout: Some(
            RolloutParams {
                trials: defaults.n_trials,
                truncation: if defaults.truncate != 0 {
                    defaults.truncate_plies
                } else {
                    0
                },
                variance_reduction: defaults.variance_reduction != 0,
                checker_ply: Some(defaults.chequer_plies),
                cube_ply: Some(defaults.cube_plies),
            },
        ),
        methods: Some(owned(answered)),
        configurable: true,
        supports_progress: false,
        supports_cancel: false,
    }
}

impl Engine {
    /// Describes the engine and the levels that it serves.
    pub fn describe(&self, build: &str) -> (description: Describe)
        ensures
            describes(description, *self, build@),
    {
        let mut catalog: Vec<Level> = Vec::new();
        catalog.push(ply_level(levels::PLY_0, 0));
        catalog.push(ply_level(levels::PLY_1, 1));
        catalog.push(ply_level(levels::PLY_2, 2));
        catalog.push(ply_level(levels::PLY_3, 3));
        catalog.push(ply_level(levels::PLY_4, 4));
        catalog.push(rollout_level(&self.rollout_defaults));
        Describe {
            protocol_version: PROTOCOL_VERSION.to_owned(),
            engine: EngineIdentity {
                family: ENGINE_FAMILY.to_owned(),
                display_name: ENGINE_DISPLAY_NAME.to_owned(),
                version: self.version.clone(),
                build: build.to_owned(),
            },
            max_parallel: MAX_PARALLEL,
            conventions: Conventions {
                ply_counting: PLY_COUNTING.to_owned(),
                equity: EQUITY_CONVENTION.to_owned(),
            },
            levels: catalog,
        }
    }
}

} // verus!
