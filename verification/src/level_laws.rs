//! What holds of the levels as a whole: the description and the resolution of
//! requests agree, cube decisions are made at even plies alone, and rollouts
//! answer for positions alone and change only what their options set.

use vstd::prelude::*;

use crate::describe::{describes, is_catalog, lists, ply_id, texts, Describe, Level};
use crate::engine::{
    depth_of, evaluates_position, levels, methods_at, resolution, settings_with, Engine, LevelError,
    LevelFault, NativeCall, Resolved,
};
use crate::ffi::RolloutSettings;
use crate::json::{backquoted, invalid_type, invalid_value, unknown_field, JsonValue};
use crate::methods;
use crate::options::{
    count_of, entry_fault, field_names, flag_of, lemma_names_differ, names_field,
    list_fault, no_options, object_fault, read_options, value_fault, value_under, RolloutOptions,
};
use crate::text::{decimal, quoted_text, views};

verus! {

/// Whether a level answers a method, by its description.
pub open spec fn answers(level: Level, method: Seq<char>) -> bool {
    match level.methods {
        Some(names) => exists|i: int| 0 <= i < names@.len() && (#[trigger] names@[i])@ == method,
        None => true,
    }
}

/// The identifiers of the levels are all different.
pub proof fn lemma_level_ids_differ()
    ensures
        forall|a: int, b: int|
            0 <= a < 5 && 0 <= b < 5 && #[trigger] ply_id(a) == #[trigger] ply_id(b) ==> a == b,
        forall|a: int| 0 <= a < 5 ==> #[trigger] ply_id(a) != levels::ROLLOUT@,
        forall|a: int| 0 <= a < 5 ==> depth_of(#[trigger] ply_id(a)) == Some(a as u32),
        depth_of(levels::ROLLOUT@) is None,
{
    reveal_strlit("0ply");
    reveal_strlit("1ply");
    reveal_strlit("2ply");
    reveal_strlit("3ply");
    reveal_strlit("4ply");
    reveal_strlit("rollout");
    assert(levels::PLY_0@[0] == '0');
    assert(levels::PLY_1@[0] == '1');
    assert(levels::PLY_2@[0] == '2');
    assert(levels::PLY_3@[0] == '3');
    assert(levels::PLY_4@[0] == '4');
    assert(levels::ROLLOUT@[0] == 'r');
}

proof fn lemma_listed(level: Level, names: Option<Seq<&'static str>>, method: Seq<char>)
    requires
        lists(level, names),
    ensures
        answers(level, method) <==> match names {
            Some(names) => exists|i: int| 0 <= i < names.len() && (#[trigger] names[i])@ == method,
            None => true,
        },
{
    if let Some(names) = names {
        let listed = level.methods->Some_0@;
        assert(views(listed).len() == texts(names).len());
        assert forall|i: int| 0 <= i < names.len() implies (#[trigger] names[i])@ == listed[i]@ by {
            assert(views(listed)[i] == texts(names)[i]);
        }
        if answers(level, method) {
            let i = choose|i: int| 0 <= i < listed.len() && (#[trigger] listed[i])@ == method;
            assert(names[i]@ == method);
        }
        if exists|i: int| 0 <= i < names.len() && (#[trigger] names[i])@ == method {
            let i = choose|i: int| 0 <= i < names.len() && (#[trigger] names[i])@ == method;
            assert(listed[i]@ == method);
        }
    }
}

/// A level is described as answering a method exactly when a request for that
/// method at that level, without options, is resolved.
pub proof fn law_description_agrees_with_resolution(
    catalog: Seq<Level>,
    defaults: RolloutSettings,
    i: int,
    method: Seq<char>,
)
    requires
        is_catalog(catalog, defaults),
        0 <= i < catalog.len(),
    ensures
        answers(catalog[i], method) <==> resolution(catalog[i].id@, method, None) is Ok,
{
    lemma_level_ids_differ();
    if i < 5 {
        lemma_listed(catalog[i], methods_at(i as nat), method);
        assert(depth_of(ply_id(i)) == Some(i as u32));
    } else {
        let only = seq![methods::EVALUATE_POSITION];
        lemma_listed(catalog[5], Some(only), method);
        if method == methods::EVALUATE_POSITION@ {
            assert(only[0]@ == method);
        }
    }
}

/// A level takes options exactly when it is described as configurable: the
/// others refuse all options, and the configurable one takes all that can be
/// read.
pub proof fn law_configurable(
    catalog: Seq<Level>,
    defaults: RolloutSettings,
    i: int,
    method: Seq<char>,
    value: JsonValue,
)
    requires
        is_catalog(catalog, defaults),
        0 <= i < catalog.len(),
    ensures
        !catalog[i].configurable ==> resolution(catalog[i].id@, method, Some(value)) matches Err(
            LevelFault::InvalidOptions(_),
        ),
        catalog[i].configurable ==> (resolution(
            catalog[i].id@,
            methods::EVALUATE_POSITION@,
            Some(value),
        ) is Ok <==> read_options(value) is Ok),
{
    lemma_level_ids_differ();
    if i < 5 {
        assert(is_catalog(catalog, defaults));
        assert(catalog[i].id@ == ply_id(i));
    }
}

/// A level is unknown exactly when it is not described.
pub proof fn law_unknown_levels(
    catalog: Seq<Level>,
    defaults: RolloutSettings,
    level: Seq<char>,
    method: Seq<char>,
    options: Option<JsonValue>,
)
    requires
        is_catalog(catalog, defaults),
    ensures
        resolution(level, method, options) == Err::<Resolved, _>(LevelFault::UnknownLevel(level))
            <==> !exists|i: int| 0 <= i < catalog.len() && (#[trigger] catalog[i]).id@ == level,
{
    lemma_level_ids_differ();
    assert(catalog[5].id@ == levels::ROLLOUT@);
    assert forall|i: int| 0 <= i < 5 implies (#[trigger] catalog[i]).id@ == ply_id(i) by {}
    if depth_of(level) is Some {
        let depth = depth_of(level)->Some_0 as int;
        assert(ply_id(depth) == level);
        assert(catalog[depth].id@ == level);
    }
    if exists|i: int| 0 <= i < catalog.len() && (#[trigger] catalog[i]).id@ == level {
        let i = choose|i: int| 0 <= i < catalog.len() && (#[trigger] catalog[i]).id@ == level;
        if i < 5 {
            assert(depth_of(ply_id(i)) == Some(i as u32));
        }
    }
}

/// Cube decisions are made at 0, 2 and 4 plies and nowhere else.
pub proof fn law_cube_at_even_plies(level: Seq<char>, options: Option<JsonValue>)
    ensures
        resolution(level, methods::EVALUATE_CUBE@, options) is Ok <==> options is None && (level
            == levels::PLY_0@ || level == levels::PLY_2@ || level == levels::PLY_4@),
        resolution(level, methods::EVALUATE_CUBE@, options) matches Ok(resolved)
            ==> (resolved matches Resolved::Ply(depth) && depth <= 4 && depth % 2 == 0),
{
    methods::lemma_methods_differ();
    lemma_level_ids_differ();
    lemma_named_ids();
    assert(methods_at(4) matches Some(names) && names[1]@ == methods::EVALUATE_CUBE@);
}

proof fn lemma_named_ids()
    ensures
        ply_id(0) == levels::PLY_0@,
        ply_id(1) == levels::PLY_1@,
        ply_id(2) == levels::PLY_2@,
        ply_id(3) == levels::PLY_3@,
        ply_id(4) == levels::PLY_4@,
{
}

/// Moves are scored at 0 to 3 plies and nowhere else.
pub proof fn law_moves_up_to_three_plies(
    level: Seq<char>,
    method: Seq<char>,
    options: Option<JsonValue>,
)
    requires
        method == methods::EVALUATE_MOVES@ || method == methods::ANALYZE_MOVE@,
    ensures
        resolution(level, method, options) is Ok <==> options is None && (level == levels::PLY_0@
            || level == levels::PLY_1@ || level == levels::PLY_2@ || level == levels::PLY_3@),
        resolution(level, method, options) matches Ok(resolved) ==> (resolved matches Resolved::Ply(
            depth,
        ) && depth <= 3),
{
    methods::lemma_methods_differ();
    lemma_level_ids_differ();
    lemma_named_ids();
    assert(methods_at(1) matches Some(names) && names[1]@ == methods::EVALUATE_MOVES@ && names[2]@
        == methods::ANALYZE_MOVE@);
}

/// Every described level answers for positions.
pub proof fn law_positions_everywhere(catalog: Seq<Level>, defaults: RolloutSettings, i: int)
    requires
        is_catalog(catalog, defaults),
        0 <= i < catalog.len(),
    ensures
        resolution(catalog[i].id@, methods::EVALUATE_POSITION@, None) is Ok,
{
    lemma_level_ids_differ();
    if i < 5 {
        assert(catalog[i].id@ == ply_id(i));
        if i == 1 || i == 3 || i == 4 {
            assert(methods_at(i as nat)->Some_0[0]@ == methods::EVALUATE_POSITION@);
        }
    }
}

/// A rollout is run for positions alone.
pub proof fn law_rollouts_for_positions(
    level: Seq<char>,
    method: Seq<char>,
    options: Option<JsonValue>,
)
    ensures
        resolution(level, method, options) matches Ok(Resolved::Rollout(_)) ==> level
            == levels::ROLLOUT@ && method == methods::EVALUATE_POSITION@,
{
}

/// A result is stamped with the depth that its level is described with, and
/// with 0 where it is described with none.
pub proof fn law_stamp_is_described_depth(
    catalog: Seq<Level>,
    defaults: RolloutSettings,
    i: int,
    method: Seq<char>,
    options: Option<JsonValue>,
)
    requires
        is_catalog(catalog, defaults),
        0 <= i < catalog.len(),
    ensures
        resolution(catalog[i].id@, method, options) matches Ok(resolved) ==> resolved.stamp()
            == match catalog[i].ply_depth {
            Some(depth) => depth as int,
            None => 0,
        },
{
    lemma_level_ids_differ();
    if i < 5 {
        assert(catalog[i].id@ == ply_id(i));
    }
}

/// A rollout without options is run with the defaults.
pub proof fn law_no_options_keep_defaults(defaults: RolloutSettings)
    ensures
        settings_with(defaults, no_options()) == defaults,
{
}

/// An object of options with a key that names no field is refused, whatever
/// else it holds.
pub proof fn law_unknown_keys_refused(entries: Vec<(String, JsonValue)>, i: int)
    requires
        0 <= i < entries@.len(),
        !exists|field: int| names_field(entries@[i].0@, field),
    ensures
        read_options(JsonValue::Object(entries)) is Err,
{
    lemma_fault_found(entries@, i, entries@.len());
}

proof fn lemma_fault_found(entries: Seq<(String, JsonValue)>, i: int, n: nat)
    requires
        0 <= i < n,
        entry_fault(entries, i) is Some,
    ensures
        object_fault(entries, n) is Some,
    decreases n,
{
    if i < n - 1 {
        lemma_fault_found(entries, i, (n - 1) as nat);
    }
}

proof fn lemma_value_under(entries: Seq<(String, JsonValue)>, i: int)
    requires
        0 <= i < entries.len(),
        forall|j: int| i < j < entries.len() ==> (#[trigger] entries[j]).0@ != entries[i].0@,
    ensures
        value_under(entries, entries[i].0@) == Some(entries[i].1),
    decreases entries.len(),
{
    if i < entries.len() - 1 {
        let init = entries.drop_last();
        assert(entries.last() == entries[entries.len() - 1]);
        assert forall|j: int| i < j < init.len() implies (#[trigger] init[j]).0@ != init[i].0@ by {
            assert(init[j] == entries[j]);
        }
        lemma_value_under(init, i);
    }
}

/// An object of options that is taken gives every field that it names the value
/// under that name, and what it does not name stays unset.
pub proof fn law_options_by_name(entries: Vec<(String, JsonValue)>, options: RolloutOptions)
    requires
        read_options(JsonValue::Object(entries)) == Ok::<_, Seq<char>>(options),
    ensures
        forall|i: int| #![trigger entries@[i]]
            0 <= i < entries@.len() ==> {
                let key = entries@[i].0@;
                let value = entries@[i].1;
                &&& names_field(key, 0) ==> count_of(value) == Ok::<_, Seq<char>>(options.trials)
                &&& names_field(key, 1) ==> flag_of(value) == Ok::<_, Seq<char>>(options.cubeful)
                &&& names_field(key, 2) ==> flag_of(value) == Ok::<_, Seq<char>>(
                    options.variance_reduction,
                )
                &&& names_field(key, 3) ==> count_of(value) == Ok::<_, Seq<char>>(
                    options.chequer_plies,
                )
                &&& names_field(key, 4) ==> count_of(value) == Ok::<_, Seq<char>>(
                    options.cube_plies,
                )
                &&& names_field(key, 5) ==> count_of(value) == Ok::<_, Seq<char>>(options.seed)
                &&& names_field(key, 6) ==> flag_of(value) == Ok::<_, Seq<char>>(options.truncate)
                &&& names_field(key, 7) ==> count_of(value) == Ok::<_, Seq<char>>(
                    options.truncate_plies,
                )
            },
        unnamed(entries@, 0) ==> options.trials is None,
        unnamed(entries@, 1) ==> options.cubeful is None,
        unnamed(entries@, 2) ==> options.variance_reduction is None,
        unnamed(entries@, 3) ==> options.chequer_plies is None,
        unnamed(entries@, 4) ==> options.cube_plies is None,
        unnamed(entries@, 5) ==> options.seed is None,
        unnamed(entries@, 6) ==> options.truncate is None,
        unnamed(entries@, 7) ==> options.truncate_plies is None,
{
    let all = entries@;
    assert forall|i: int| #![trigger all[i]] 0 <= i < all.len() implies entry_fault(
        all,
        i,
    ) is None && value_under(all, all[i].0@) == Some(all[i].1) by {
        if entry_fault(all, i) is Some {
            lemma_fault_found(all, i, all.len());
        }
        assert forall|j: int| i < j < all.len() implies (#[trigger] all[j]).0@ != all[i].0@ by {
            if entry_fault(all, j) is Some {
                lemma_fault_found(all, j, all.len());
            }
        }
        lemma_value_under(all, i);
    }
    assert forall|i: int, field: int|
        #![trigger all[i], field_names()[field]]
        0 <= i < all.len() && names_field(all[i].0@, field) implies value_fault(
        field,
        all[i].1,
    ) is None by {
        let chosen = choose|f: int| names_field(all[i].0@, f);
        assert(names_field(all[i].0@, chosen));
        lemma_names_differ(chosen, field);
        assert(entry_fault(all, i) is None);
    }
    assert forall|field: int| 0 <= field < 8 && #[trigger] unnamed(all, field) implies value_under(
        all,
        field_names()[field]@,
    ) is None by {
        lemma_absent(all, field);
    }
}

/// Whether no entry names a field.
pub open spec fn unnamed(entries: Seq<(String, JsonValue)>, field: int) -> bool {
    forall|i: int| 0 <= i < entries.len() ==> !names_field((#[trigger] entries[i]).0@, field)
}

proof fn lemma_absent(entries: Seq<(String, JsonValue)>, field: int)
    requires
        0 <= field < 8,
        unnamed(entries, field),
    ensures
        value_under(entries, field_names()[field]@) is None,
    decreases entries.len(),
{
    if entries.len() > 0 {
        assert(entries.last() == entries[entries.len() - 1]);
        assert forall|i: int| 0 <= i < entries.drop_last().len() implies !names_field(
            (#[trigger] entries.drop_last()[i]).0@,
            field,
        ) by {
            assert(entries.drop_last()[i] == entries[i]);
        }
        lemma_absent(entries.drop_last(), field);
    }
}

/// Whether an identifier is that of the ply level of a depth.
pub open spec fn names_depth(level: Seq<char>, depth: int) -> bool {
    ||| level == "0ply"@ && depth == 0
    ||| level == "1ply"@ && depth == 1
    ||| level == "2ply"@ && depth == 2
    ||| level == "3ply"@ && depth == 3
    ||| level == "4ply"@ && depth == 4
}

/// Whether a method goes with the ply level of a depth: positions at every
/// depth, the cube at even depths, moves at depths below 4. Depths 0 and 2 turn
/// no method away.
pub open spec fn goes_with(depth: int, method: Seq<char>) -> bool {
    ||| depth == 0
    ||| depth == 2
    ||| method == "evaluatePosition"@
    ||| method == "evaluateCube"@ && depth == 4
    ||| (method == "evaluateMoves"@ || method == "analyzeMove"@) && (depth == 1 || depth == 3)
}

/// A ply level resolves to the depth that its identifier names, where it is
/// asked without options for a method that goes with it. It refuses options
/// before it looks at the method, and names itself and the method it refuses.
pub proof fn law_ply_levels(
    level: Seq<char>,
    depth: u32,
    method: Seq<char>,
    options: Option<JsonValue>,
)
    requires
        names_depth(level, depth as int),
    ensures
        options is Some ==> resolution(level, method, options) == Err::<Resolved, _>(
            LevelFault::InvalidOptions("level "@ + quoted_text(level) + " is not configurable"@),
        ),
        options is None && goes_with(depth as int, method) ==> resolution(level, method, options)
            == Ok::<_, LevelFault>(Resolved::Ply(depth)),
        options is None && !goes_with(depth as int, method) ==> resolution(level, method, options)
            == Err::<Resolved, _>(LevelFault::MethodNotSupported { level, method }),
{
    lemma_level_ids_differ();
    lemma_named_ids();
    methods::lemma_methods_differ();
    assert(ply_id(depth as int) == level);
    assert(depth_of(level) == Some(depth));
    let names = methods_at(depth as nat);
    if depth == 1 || depth == 3 {
        assert(names->Some_0.len() == 3);
        assert(names->Some_0[0]@ == "evaluatePosition"@);
        assert(names->Some_0[1]@ == "evaluateMoves"@);
        assert(names->Some_0[2]@ == "analyzeMove"@);
    }
    if depth == 4 {
        assert(names->Some_0.len() == 2);
        assert(names->Some_0[0]@ == "evaluatePosition"@);
        assert(names->Some_0[1]@ == "evaluateCube"@);
    }
}

/// The rollout answers for positions alone. Without options it sets nothing, and
/// with options it is set to what they say, or refuses them with what is wrong.
pub proof fn law_rollout_level(method: Seq<char>, options: Option<JsonValue>)
    ensures
        method != "evaluatePosition"@ ==> resolution("rollout"@, method, options) == Err::<
            Resolved,
            _,
        >(LevelFault::MethodNotSupported { level: "rollout"@, method }),
        method == "evaluatePosition"@ ==> match options {
            None => resolution("rollout"@, method, options) matches Ok(Resolved::Rollout(set))
                && sets_nothing(set),
            Some(value) => match read_options(value) {
                Ok(set) => resolution("rollout"@, method, options) == Ok::<_, LevelFault>(
                    Resolved::Rollout(set),
                ),
                Err(message) => resolution("rollout"@, method, options) == Err::<Resolved, _>(
                    LevelFault::InvalidOptions(message),
                ),
            },
        },
{
    lemma_level_ids_differ();
}

/// Whether options leave every field unset.
pub open spec fn sets_nothing(options: RolloutOptions) -> bool {
    &&& options.trials is None
    &&& options.cubeful is None
    &&& options.variance_reduction is None
    &&& options.chequer_plies is None
    &&& options.cube_plies is None
    &&& options.seed is None
    &&& options.truncate is None
    &&& options.truncate_plies is None
}

/// Whether an identifier is that of a level.
pub open spec fn is_level(level: Seq<char>) -> bool {
    level == "rollout"@ || exists|depth: int| names_depth(level, depth)
}

/// Any other level is unknown, whatever is asked of it.
pub proof fn law_other_levels(level: Seq<char>, method: Seq<char>, options: Option<JsonValue>)
    requires
        !is_level(level),
    ensures
        resolution(level, method, options) == Err::<Resolved, _>(LevelFault::UnknownLevel(level)),
{
    if depth_of(level) is Some {
        let depth = depth_of(level)->Some_0 as int;
        assert(names_depth(level, depth));
    }
}

/// Whether a native flag is what an option says: 1 where the option is on, 0
/// where it is off, and the default where it is not set.
pub open spec fn flag_follows(native: i32, option: Option<bool>, default: i32) -> bool {
    &&& option == Some(true) ==> native == 1
    &&& option == Some(false) ==> native == 0
    &&& option is None ==> native == default
}

/// Whether a native count is what an option says: its number where it is set,
/// and the default where it is not.
pub open spec fn count_follows(native: u32, option: Option<u32>, default: u32) -> bool {
    &&& option matches Some(count) ==> native == count
    &&& option is None ==> native == default
}

/// Whether every setting is what its own option says over its own default.
pub open spec fn settings_follow(
    settings: RolloutSettings,
    options: RolloutOptions,
    defaults: RolloutSettings,
) -> bool {
    &&& count_follows(settings.n_trials, options.trials, defaults.n_trials)
    &&& flag_follows(settings.cubeful, options.cubeful, defaults.cubeful)
    &&& flag_follows(
        settings.variance_reduction,
        options.variance_reduction,
        defaults.variance_reduction,
    )
    &&& count_follows(settings.chequer_plies, options.chequer_plies, defaults.chequer_plies)
    &&& count_follows(settings.cube_plies, options.cube_plies, defaults.cube_plies)
    &&& count_follows(settings.seed, options.seed, defaults.seed)
    &&& flag_follows(settings.truncate, options.truncate, defaults.truncate)
    &&& count_follows(settings.truncate_plies, options.truncate_plies, defaults.truncate_plies)
}

/// A rollout is run with each option that the request sets, and with the
/// default of each that it does not; it is of the position and match asked for.
pub proof fn law_rollout_settings(
    call: NativeCall,
    defaults: RolloutSettings,
    position: Seq<char>,
    match_state: Seq<char>,
    options: RolloutOptions,
)
    requires
        evaluates_position(call, defaults, position, match_state, Resolved::Rollout(options)),
    ensures
        call matches NativeCall::Rollout { position_id, match_id, settings } && position_id@
            == position && match_id@ == match_state && settings_follow(settings, options, defaults),
{
}

/// A position is evaluated at the depth of its ply level.
pub proof fn law_ply_evaluation(
    call: NativeCall,
    defaults: RolloutSettings,
    position: Seq<char>,
    match_state: Seq<char>,
    depth: u32,
)
    requires
        evaluates_position(call, defaults, position, match_state, Resolved::Ply(depth)),
    ensures
        call matches NativeCall::EvaluatePosition { position_id, match_id, n_plies } && position_id@
            == position && match_id@ == match_state && n_plies == depth,
{
}

/// Two rollouts whose options differ in one flag alone differ in that setting
/// alone.
pub proof fn law_truncation_is_its_own(defaults: RolloutSettings, options: RolloutOptions)
    ensures
        ({
            let on = settings_with(defaults, RolloutOptions { truncate: Some(true), ..options });
            let off = settings_with(defaults, RolloutOptions { truncate: Some(false), ..options });
            on.truncate == 1 && off == (RolloutSettings { truncate: 0, ..on })
        }),
{
}

/// Whether a value stands for a count: null for none, and an integer for itself.
pub open spec fn is_count(value: JsonValue, count: Option<u32>) -> bool {
    match value {
        JsonValue::Null => count is None,
        JsonValue::Unsigned(n) => count matches Some(c) && c == n,
        JsonValue::Signed(n) => count matches Some(c) && c == n,
        _ => false,
    }
}

/// Whether a value stands for a flag: null for none, and a boolean for itself.
pub open spec fn is_switch(value: JsonValue, flag: Option<bool>) -> bool {
    match value {
        JsonValue::Null => flag is None,
        JsonValue::Bool(b) => flag == Some(b),
        _ => false,
    }
}

/// Whether no entry has a key.
pub open spec fn lacks(entries: Seq<(String, JsonValue)>, key: Seq<char>) -> bool {
    forall|i: int| 0 <= i < entries.len() ==> (#[trigger] entries[i]).0@ != key
}

/// Whether options hold what an entry says of the field that it names.
pub open spec fn holds_entry(options: RolloutOptions, key: Seq<char>, value: JsonValue) -> bool {
    &&& key == "trials"@ ==> is_count(value, options.trials)
    &&& key == "cubeful"@ ==> is_switch(value, options.cubeful)
    &&& key == "varianceReduction"@ ==> is_switch(value, options.variance_reduction)
    &&& key == "chequerPlies"@ ==> is_count(value, options.chequer_plies)
    &&& key == "cubePlies"@ ==> is_count(value, options.cube_plies)
    &&& key == "seed"@ ==> is_count(value, options.seed)
    &&& key == "truncate"@ ==> is_switch(value, options.truncate)
    &&& key == "truncatePlies"@ ==> is_count(value, options.truncate_plies)
}

/// An object of options that is taken sets each field to the number or boolean
/// under its name, and leaves the fields that it does not name unset.
pub proof fn law_option_values(entries: Vec<(String, JsonValue)>, options: RolloutOptions)
    requires
        read_options(JsonValue::Object(entries)) == Ok::<_, Seq<char>>(options),
    ensures
        forall|i: int|
            0 <= i < entries@.len() ==> holds_entry(
                options,
                (#[trigger] entries@[i]).0@,
                entries@[i].1,
            ),
        lacks(entries@, "trials"@) ==> options.trials is None,
        lacks(entries@, "cubeful"@) ==> options.cubeful is None,
        lacks(entries@, "varianceReduction"@) ==> options.variance_reduction is None,
        lacks(entries@, "chequerPlies"@) ==> options.chequer_plies is None,
        lacks(entries@, "cubePlies"@) ==> options.cube_plies is None,
        lacks(entries@, "seed"@) ==> options.seed is None,
        lacks(entries@, "truncate"@) ==> options.truncate is None,
        lacks(entries@, "truncatePlies"@) ==> options.truncate_plies is None,
{
    law_options_by_name(entries, options);
    assert forall|i: int| 0 <= i < entries@.len() implies holds_entry(
        options,
        (#[trigger] entries@[i]).0@,
        entries@[i].1,
    ) by {
        lemma_field_names();
    }
    lemma_field_names();
    assert forall|field: int| 0 <= field < 8 && lacks(entries@, #[trigger] field_names()[field]@)
        implies unnamed(entries@, field) by {}
    assert(field_names()[0]@ == "trials"@);
    assert(field_names()[1]@ == "cubeful"@);
    assert(field_names()[2]@ == "varianceReduction"@);
    assert(field_names()[3]@ == "chequerPlies"@);
    assert(field_names()[4]@ == "cubePlies"@);
    assert(field_names()[5]@ == "seed"@);
    assert(field_names()[6]@ == "truncate"@);
    assert(field_names()[7]@ == "truncatePlies"@);
}

proof fn lemma_field_names()
    ensures
        field_names().len() == 8,
        names_field("trials"@, 0),
        names_field("cubeful"@, 1),
        names_field("varianceReduction"@, 2),
        names_field("chequerPlies"@, 3),
        names_field("cubePlies"@, 4),
        names_field("seed"@, 5),
        names_field("truncate"@, 6),
        names_field("truncatePlies"@, 7),
{
}

/// Whether a value may stand for a count: null, or an integer of 32 bits without
/// a sign.
pub open spec fn may_count(value: JsonValue) -> bool {
    match value {
        JsonValue::Null => true,
        JsonValue::Unsigned(n) => n <= 0xffff_ffff,
        JsonValue::Signed(n) => 0 <= n <= 0xffff_ffff,
        _ => false,
    }
}

/// Whether a value may stand for a flag: null or a boolean.
pub open spec fn may_switch(value: JsonValue) -> bool {
    value is Null || value is Bool
}

/// Whether a key is the name of a count.
pub open spec fn is_count_name(key: Seq<char>) -> bool {
    ||| key == "trials"@
    ||| key == "chequerPlies"@
    ||| key == "cubePlies"@
    ||| key == "seed"@
    ||| key == "truncatePlies"@
}

/// Whether a key is the name of a flag.
pub open spec fn is_flag_name(key: Seq<char>) -> bool {
    ||| key == "cubeful"@
    ||| key == "varianceReduction"@
    ||| key == "truncate"@
}

/// Whether an entry can be taken: its key names a field, stands in no entry
/// before, and its value may stand in the field.
pub open spec fn is_good(entries: Seq<(String, JsonValue)>, i: int) -> bool {
    let key = entries[i].0@;
    &&& is_count_name(key) && may_count(entries[i].1) || is_flag_name(key) && may_switch(
        entries[i].1,
    )
    &&& forall|j: int| 0 <= j < i ==> (#[trigger] entries[j]).0@ != key
}

proof fn lemma_kinds(key: Seq<char>, field: int)
    requires
        names_field(key, field),
    ensures
        is_flag_name(key) <==> field == 1 || field == 2 || field == 6,
        is_count_name(key) <==> !(field == 1 || field == 2 || field == 6),
{
    lemma_field_names();
    let all = field_names();
    assert(key == all[field]@);
    assert forall|other: int| 0 <= other < 8 && all[other]@ == key implies other == field by {
        lemma_names_differ(other, field);
    }
    assert(all[0]@ == "trials"@ && all[1]@ == "cubeful"@ && all[2]@ == "varianceReduction"@
        && all[3]@ == "chequerPlies"@);
    assert(all[4]@ == "cubePlies"@ && all[5]@ == "seed"@ && all[6]@ == "truncate"@ && all[7]@
        == "truncatePlies"@);
}

proof fn lemma_known(key: Seq<char>)
    ensures
        is_count_name(key) || is_flag_name(key) <==> exists|field: int| names_field(key, field),
{
    lemma_field_names();
    if exists|field: int| names_field(key, field) {
        let field = choose|field: int| names_field(key, field);
        lemma_kinds(key, field);
    }
}

proof fn lemma_good(entries: Seq<(String, JsonValue)>, i: int)
    requires
        0 <= i < entries.len(),
    ensures
        is_good(entries, i) <==> entry_fault(entries, i) is None,
{
    let key = entries[i].0@;
    lemma_known(key);
    if exists|field: int| names_field(key, field) {
        let field = choose|field: int| names_field(key, field);
        lemma_kinds(key, field);
    }
}

proof fn lemma_all_good(entries: Seq<(String, JsonValue)>, n: nat)
    requires
        n <= entries.len(),
        forall|i: int| 0 <= i < n ==> is_good(entries, i),
    ensures
        object_fault(entries, n) is None,
    decreases n,
{
    if n > 0 {
        lemma_all_good(entries, (n - 1) as nat);
        lemma_good(entries, n - 1);
    }
}

/// An object of options is taken exactly when every entry can be taken.
pub proof fn law_options_taken(entries: Vec<(String, JsonValue)>)
    ensures
        read_options(JsonValue::Object(entries)) is Ok <==> forall|i: int|
            0 <= i < entries@.len() ==> is_good(entries@, i),
{
    let all = entries@;
    if forall|i: int| 0 <= i < all.len() ==> is_good(all, i) {
        lemma_all_good(all, all.len());
    }
    if read_options(JsonValue::Object(entries)) is Ok {
        assert forall|i: int| 0 <= i < all.len() implies is_good(all, i) by {
            lemma_good(all, i);
            if entry_fault(all, i) is Some {
                lemma_fault_found(all, i, all.len());
            }
        }
    }
}

proof fn lemma_first_fault(entries: Seq<(String, JsonValue)>, i: int, n: nat)
    requires
        0 <= i < n <= entries.len(),
        forall|j: int| 0 <= j < i ==> is_good(entries, j),
        !is_good(entries, i),
    ensures
        object_fault(entries, n) == entry_fault(entries, i),
        entry_fault(entries, i) is Some,
    decreases n,
{
    lemma_good(entries, i);
    if i < n - 1 {
        lemma_first_fault(entries, i, (n - 1) as nat);
    } else {
        lemma_all_good(entries, i as nat);
    }
}

/// The first entry that cannot be taken is complained about: by its key where
/// the key names no field or was given before, and by its value otherwise.
pub proof fn law_first_wrong_option(entries: Vec<(String, JsonValue)>, i: int)
    requires
        0 <= i < entries@.len(),
        forall|j: int| 0 <= j < i ==> is_good(entries@, j),
        !is_good(entries@, i),
    ensures
        ({
            let key = entries@[i].0@;
            let value = entries@[i].1;
            let repeated = exists|j: int| 0 <= j < i && (#[trigger] entries@[j]).0@ == key;
            &&& read_options(JsonValue::Object(entries)) matches Err(message)
            &&& !is_count_name(key) && !is_flag_name(key) ==> starts_with(
                message,
                "unknown field `"@ + key + "`, expected one of `"@,
            )
            &&& (is_count_name(key) || is_flag_name(key)) && repeated ==> message
                == "duplicate field `"@ + key + "`"@
            &&& is_count_name(key) && !repeated && (value is Unsigned || value is Signed)
                ==> message == invalid_value(value, "u32"@)
            &&& is_count_name(key) && !repeated && !(value is Unsigned || value is Signed)
                ==> message == invalid_type(value, "u32"@)
            &&& is_flag_name(key) && !repeated ==> message == invalid_type(value, "a boolean"@)
        }),
{
    lemma_first_fault(entries@, i, entries@.len());
    let key = entries@[i].0@;
    lemma_known(key);
    if exists|field: int| names_field(key, field) {
        let field = choose|field: int| names_field(key, field);
        lemma_kinds(key, field);
    } else {
        lemma_unknown_starts(key);
    }
}

/// Whether a text begins with another.
pub open spec fn starts_with(text: Seq<char>, start: Seq<char>) -> bool {
    start.len() <= text.len() && text.take(start.len() as int) == start
}

proof fn lemma_unknown_starts(key: Seq<char>)
    ensures
        starts_with(
            unknown_field(key, field_names()),
            "unknown field `"@ + key + "`, expected one of `"@,
        ),
{
    reveal_strlit("`, expected one of ");
    reveal_strlit("`, expected one of `");
    reveal_strlit("`");
    let names = field_names();
    let list = backquoted(names);
    lemma_backquoted(names);
    let start = "unknown field `"@ + key + "`, expected one of `"@;
    let text = unknown_field(key, names);
    assert("`, expected one of `"@ =~= "`, expected one of "@ + "`"@);
    assert(text.take(start.len() as int) =~= start);
}

proof fn lemma_backquoted(names: Seq<&'static str>)
    requires
        names.len() > 0,
    ensures
        backquoted(names).len() > 0,
        backquoted(names)[0] == '`',
    decreases names.len(),
{
    reveal_strlit("`");
    if names.len() > 1 {
        lemma_backquoted(names.drop_last());
    }
}

/// Whether a value may stand in the field at an index.
pub open spec fn may_stand(index: int, value: JsonValue) -> bool {
    if index == 1 || index == 2 || index == 6 {
        may_switch(value)
    } else {
        may_count(value)
    }
}

proof fn lemma_list(items: Seq<JsonValue>, n: nat)
    requires
        n <= items.len(),
    ensures
        list_fault(items, n) is None <==> forall|i: int|
            0 <= i < n ==> may_stand(i, #[trigger] items[i]),
    decreases n,
{
    if n > 0 {
        lemma_list(items, (n - 1) as nat);
        assert(may_stand(n - 1, items[n - 1]) <==> value_fault(n - 1, items[n - 1]) is None);
    }
}

/// An array of options is taken exactly when it has at most eight elements and
/// each may stand in the field at its place; the fields are then set by place,
/// and those behind the last element are unset.
pub proof fn law_options_by_place(items: Vec<JsonValue>)
    ensures
        read_options(JsonValue::List(items)) is Ok <==> items@.len() <= 8 && forall|i: int|
            0 <= i < items@.len() ==> may_stand(i, #[trigger] items@[i]),
        read_options(JsonValue::List(items)) matches Ok(options) ==> {
            let len = items@.len();
            &&& if len > 0 { is_count(items@[0], options.trials) } else { options.trials is None }
            &&& if len > 1 { is_switch(items@[1], options.cubeful) } else { options.cubeful is None }
            &&& if len > 2 {
                is_switch(items@[2], options.variance_reduction)
            } else {
                options.variance_reduction is None
            }
            &&& if len > 3 {
                is_count(items@[3], options.chequer_plies)
            } else {
                options.chequer_plies is None
            }
            &&& if len > 4 {
                is_count(items@[4], options.cube_plies)
            } else {
                options.cube_plies is None
            }
            &&& if len > 5 { is_count(items@[5], options.seed) } else { options.seed is None }
            &&& if len > 6 { is_switch(items@[6], options.truncate) } else { options.truncate is None }
            &&& if len > 7 {
                is_count(items@[7], options.truncate_plies)
            } else {
                options.truncate_plies is None
            }
        },
        items@.len() > 8 && (forall|i: int| 0 <= i < 8 ==> may_stand(i, #[trigger] items@[i]))
            ==> read_options(JsonValue::List(items)) == Err::<RolloutOptions, _>(
            "invalid length "@ + decimal(items@.len()) + ", expected fewer elements in array"@,
        ),
{
    let all = items@;
    let n: nat = if all.len() < 8 {
        all.len()
    } else {
        8
    };
    lemma_list(all, n);
    if read_options(JsonValue::List(items)) is Ok {
        assert forall|i: int| 0 <= i < all.len() implies may_stand(i, #[trigger] all[i]) by {}
    }
    reveal_strlit("invalid length ");
    reveal_strlit(", expected ");
    reveal_strlit("fewer elements in array");
    reveal_strlit(", expected fewer elements in array");
    assert(", expected fewer elements in array"@ =~= ", expected "@ + "fewer elements in array"@);
    let len = decimal(all.len());
    assert("invalid length "@ + len + ", expected fewer elements in array"@ =~= "invalid length "@
        + len + ", expected "@ + "fewer elements in array"@);
}

/// Anything but an object or an array is no options.
pub proof fn law_no_other_options(value: JsonValue)
    requires
        !(value is Object) && !(value is List),
    ensures
        read_options(value) == Err::<RolloutOptions, _>(
            invalid_type(value, "struct RolloutOptions"@),
        ),
{
}

/// Whether a level is described with these identifiers, this depth, and as one
/// that reports no progress and cannot be cancelled.
pub open spec fn is_described(level: Level, id: Seq<char>, kind: Seq<char>, depth: Option<u32>) -> bool {
    &&& level.id@ == id
    &&& level.kind@ == kind
    &&& level.ply_depth == depth
    &&& level.display_name is None
    &&& !level.supports_progress
    &&& !level.supports_cancel
}

/// The engine describes itself by name, version and build, says how its numbers
/// are to be read, and lists five ply levels by depth and then the rollout. The
/// rollout is described with the engine's defaults: its truncation is 0 unless
/// the defaults truncate.
pub proof fn law_description(description: Describe, engine: Engine, build: Seq<char>)
    requires
        describes(description, engine, build),
    ensures
        description.protocol_version@ == "0.1"@,
        description.engine.family@ == "gnubg"@,
        description.engine.display_name@ == "GNU Backgammon"@,
        description.engine.version@ == engine.version@,
        description.engine.build@ == build,
        description.max_parallel == 1,
        description.conventions.ply_counting@ == "gnubg"@,
        description.conventions.equity@ == "contract"@,
        description.levels@.len() == 6,
        is_described(description.levels@[0], "0ply"@, "ply"@, Some(0)),
        is_described(description.levels@[1], "1ply"@, "ply"@, Some(1)),
        is_described(description.levels@[2], "2ply"@, "ply"@, Some(2)),
        is_described(description.levels@[3], "3ply"@, "ply"@, Some(3)),
        is_described(description.levels@[4], "4ply"@, "ply"@, Some(4)),
        is_described(description.levels@[5], "rollout"@, "rollout"@, None),
        forall|i: int|
            0 <= i < 5 ==> !(#[trigger] description.levels@[i]).configurable
                && description.levels@[i].rollout is None,
        description.levels@[5].configurable,
        description.levels@[5].rollout matches Some(params) && {
            let defaults = engine.rollout_defaults;
            &&& params.trials == defaults.n_trials
            &&& defaults.truncate == 0 ==> params.truncation == 0
            &&& defaults.truncate != 0 ==> params.truncation == defaults.truncate_plies
            &&& params.variance_reduction <==> defaults.variance_reduction != 0
            &&& params.checker_ply == Some(defaults.chequer_plies)
            &&& params.cube_ply == Some(defaults.cube_plies)
        },
{
    let all = description.levels@;
    assert(all[0].id@ == ply_id(0));
    assert(all[1].id@ == ply_id(1));
    assert(all[2].id@ == ply_id(2));
    assert(all[3].id@ == ply_id(3));
    assert(all[4].id@ == ply_id(4));
}

/// The methods that the levels are described with: none listed at depths 0 and
/// 2, which answer all, and otherwise those that go with the level.
pub proof fn law_described_methods(description: Describe, engine: Engine, build: Seq<char>)
    requires
        describes(description, engine, build),
    ensures
        description.levels@[0].methods is None,
        description.levels@[2].methods is None,
        forall|i: int| #![trigger description.levels@[i]]
            i == 1 || i == 3 ==> (description.levels@[i].methods matches Some(names)
                && names@.len() == 3 && names@[0]@ == "evaluatePosition"@ && names@[1]@
                == "evaluateMoves"@ && names@[2]@ == "analyzeMove"@),
        description.levels@[4].methods matches Some(names) && names@.len() == 2 && names@[0]@
            == "evaluatePosition"@ && names@[1]@ == "evaluateCube"@,
        description.levels@[5].methods matches Some(names) && names@.len() == 1 && names@[0]@
            == "evaluatePosition"@,
{
    let all = description.levels@;
    assert(lists(all[0], methods_at(0)));
    assert(lists(all[2], methods_at(2)));
    assert forall|i: int| #![trigger all[i]] i == 1 || i == 3 implies (all[i].methods matches Some(
        names,
    ) && names@.len() == 3 && names@[0]@ == "evaluatePosition"@ && names@[1]@ == "evaluateMoves"@
        && names@[2]@ == "analyzeMove"@) by {
        assert(lists(all[i], methods_at(i as nat)));
        lemma_listed_texts(all[i], methods_at(i as nat)->Some_0);
    }
    assert(lists(all[4], methods_at(4)));
    lemma_listed_texts(all[4], methods_at(4)->Some_0);
    lemma_listed_texts(all[5], seq![methods::EVALUATE_POSITION]);
}

proof fn lemma_listed_texts(level: Level, names: Seq<&'static str>)
    requires
        lists(level, Some(names)),
    ensures
        level.methods matches Some(listed) && listed@.len() == names.len() && forall|i: int|
            0 <= i < names.len() ==> (#[trigger] listed@[i])@ == names[i]@,
{
    let listed = level.methods->Some_0@;
    assert(views(listed).len() == texts(names).len());
    assert forall|i: int| 0 <= i < names.len() implies (#[trigger] listed[i])@ == names[i]@ by {
        assert(views(listed)[i] == texts(names)[i]);
    }
}

/// The methods that a depth lists, where it lists any.
pub proof fn law_listed_methods(depth: nat)
    ensures
        depth == 1 || depth == 3 ==> (methods_at(depth) matches Some(names) && names.len() == 3
            && names[0]@ == "evaluatePosition"@ && names[1]@ == "evaluateMoves"@ && names[2]@
            == "analyzeMove"@),
        depth == 4 ==> (methods_at(depth) matches Some(names) && names.len() == 2 && names[0]@
            == "evaluatePosition"@ && names[1]@ == "evaluateCube"@),
        depth != 1 && depth != 3 && depth != 4 ==> methods_at(depth) is None,
{
}

/// Results of a ply level are stamped with its depth, as long as an `i32` holds
/// it, and with the number that has the same bits beyond; rollouts with 0.
pub proof fn law_stamps(depth: u32, options: RolloutOptions)
    ensures
        depth <= 0x7fff_ffff ==> Resolved::Ply(depth).stamp() == depth,
        depth > 0x7fff_ffff ==> Resolved::Ply(depth).stamp() == depth - 0x1_0000_0000,
        Resolved::Rollout(options).stamp() == 0,
{
}

proof fn lemma_first_list_fault(items: Seq<JsonValue>, i: int, n: nat)
    requires
        0 <= i < n <= items.len(),
        forall|j: int| 0 <= j < i ==> may_stand(j, #[trigger] items[j]),
        !may_stand(i, items[i]),
    ensures
        list_fault(items, n) == value_fault(i, items[i]),
        value_fault(i, items[i]) is Some,
    decreases n,
{
    if i < n - 1 {
        lemma_first_list_fault(items, i, (n - 1) as nat);
    } else {
        lemma_list(items, i as nat);
    }
}

/// The first element of an array of options that may not stand at its place is
/// complained about by its value.
pub proof fn law_first_wrong_element(items: Vec<JsonValue>, i: int)
    requires
        0 <= i < 8,
        i < items@.len(),
        forall|j: int| 0 <= j < i ==> may_stand(j, #[trigger] items@[j]),
        !may_stand(i, items@[i]),
    ensures
        ({
            let value = items@[i];
            let flag = i == 1 || i == 2 || i == 6;
            let number = value is Unsigned || value is Signed;
            &&& read_options(JsonValue::List(items)) matches Err(message)
            &&& flag ==> message == invalid_type(value, "a boolean"@)
            &&& !flag && number ==> message == invalid_value(value, "u32"@)
            &&& !flag && !number ==> message == invalid_type(value, "u32"@)
        }),
{
    let n: nat = if items@.len() < 8 {
        items@.len()
    } else {
        8
    };
    lemma_first_list_fault(items@, i, n);
}

/// What a refusal says of itself is what it holds: the level, the message, or
/// the level and the method, each in its own place.
pub proof fn law_refusal_texts(error: LevelError)
    ensures
        error matches LevelError::UnknownLevel(level) ==> error@ == LevelFault::UnknownLevel(
            level@,
        ),
        error matches LevelError::InvalidOptions(message) ==> error@ == LevelFault::InvalidOptions(
            message@,
        ),
        error matches LevelError::MethodNotSupported { level, method } ==> error@
            == (LevelFault::MethodNotSupported { level: level@, method: method@ }),
{
}

} // verus!
