//! The options of the rollout level: their type, and how they are read from a
//! request's JSON value.

use vstd::prelude::*;

use crate::json::{
    duplicate_field, duplicate_field_text, invalid_length, invalid_length_text, invalid_type,
    invalid_type_text, invalid_value, invalid_value_error, unknown_field, unknown_field_text, Found,
    JsonValue, EXPECTED_BOOL, EXPECTED_OPTIONS, EXPECTED_SHORTER, EXPECTED_U32,
};
use crate::text::same_text;

verus! {

/// What a request may set for a rollout. What it leaves out stays at the
/// engine's default.
#[derive(Debug, Clone, Copy, PartialEq, Eq)]
pub struct RolloutOptions {
    pub trials: Option<u32>,
    pub cubeful: Option<bool>,
    pub variance_reduction: Option<bool>,
    pub chequer_plies: Option<u32>,
    pub cube_plies: Option<u32>,
    pub seed: Option<u32>,
    pub truncate: Option<bool>,
    pub truncate_plies: Option<u32>,
}

/// Options that set nothing.
pub open spec fn no_options() -> RolloutOptions {
    RolloutOptions {
        trials: None,
        cubeful: None,
        variance_reduction: None,
        chequer_plies: None,
        cube_plies: None,
        seed: None,
        truncate: None,
        truncate_plies: None,
    }
}

impl Default for RolloutOptions {
    fn default() -> (options: RolloutOptions)
        ensures
            options == no_options(),
    {
        RolloutOptions {
            trials: None,
            cubeful: None,
            variance_reduction: None,
            chequer_plies: None,
            cube_plies: None,
            seed: None,
            truncate: None,
            truncate_plies: None,
        }
    }
}

/// The fields' names in a request, in the order of the fields.
pub open spec fn field_names() -> Seq<&'static str> {
    seq![
        "trials",
        "cubeful",
        "varianceReduction",
        "chequerPlies",
        "cubePlies",
        "seed",
        "truncate",
        "truncatePlies",
    ]
}

/// The names as a slice.
fn names() -> (names: &'static [&'static str])
    ensures
        names@ == field_names(),
{
    let all: &'static [&'static str] = &[
        "trials",
        "cubeful",
        "varianceReduction",
        "chequerPlies",
        "cubePlies",
        "seed",
        "truncate",
        "truncatePlies",
    ];
    assert(all@ =~= field_names());
    all
}

/// A count: absent where the value is null, an integer that fits otherwise.
pub open spec fn count_of(value: JsonValue) -> Result<Option<u32>, Seq<char>> {
    match value {
        JsonValue::Null => Ok(None),
        JsonValue::Unsigned(n) => if n <= u32::MAX {
            Ok(Some(n as u32))
        } else {
            Err(invalid_value(value, EXPECTED_U32@))
        },
        JsonValue::Signed(n) => if 0 <= n <= u32::MAX {
            Ok(Some(n as u32))
        } else {
            Err(invalid_value(value, EXPECTED_U32@))
        },
        _ => Err(invalid_type(value, EXPECTED_U32@)),
    }
}

/// A flag: absent where the value is null, a boolean otherwise.
pub open spec fn flag_of(value: JsonValue) -> Result<Option<bool>, Seq<char>> {
    match value {
        JsonValue::Null => Ok(None),
        JsonValue::Bool(b) => Ok(Some(b)),
        _ => Err(invalid_type(value, EXPECTED_BOOL@)),
    }
}

/// Whether the field at an index is a flag; the others are counts.
pub open spec fn is_flag(field: int) -> bool {
    field == 1 || field == 2 || field == 6
}

/// Why a value cannot stand in a field, where it cannot.
pub open spec fn value_fault(field: int, value: JsonValue) -> Option<Seq<char>> {
    if is_flag(field) {
        match flag_of(value) {
            Ok(_) => None,
            Err(message) => Some(message),
        }
    } else {
        match count_of(value) {
            Ok(_) => None,
            Err(message) => Some(message),
        }
    }
}

/// Whether `key` names the field at an index.
pub open spec fn names_field(key: Seq<char>, field: int) -> bool {
    0 <= field < field_names().len() && field_names()[field]@ == key
}

/// Why an entry of an object cannot be taken, where it cannot: its key names no
/// field, or stood in an entry before, or its value cannot stand in the field.
pub open spec fn entry_fault(entries: Seq<(String, JsonValue)>, i: int) -> Option<Seq<char>> {
    let key = entries[i].0@;
    if !exists|field: int| names_field(key, field) {
        Some(unknown_field(key, field_names()))
    } else if exists|j: int| 0 <= j < i && (#[trigger] entries[j]).0@ == key {
        Some(duplicate_field(key))
    } else {
        value_fault(choose|field: int| names_field(key, field), entries[i].1)
    }
}

/// The fault of the first of the first `n` entries that has one.
pub open spec fn object_fault(entries: Seq<(String, JsonValue)>, n: nat) -> Option<Seq<char>>
    decreases n,
{
    if n == 0 {
        None
    } else {
        match object_fault(entries, (n - 1) as nat) {
            Some(message) => Some(message),
            None => entry_fault(entries, n - 1),
        }
    }
}

/// The fault of the first of the first `n` elements that has one, when the
/// elements stand for the fields in their order.
pub open spec fn list_fault(items: Seq<JsonValue>, n: nat) -> Option<Seq<char>>
    decreases n,
{
    if n == 0 {
        None
    } else {
        match list_fault(items, (n - 1) as nat) {
            Some(message) => Some(message),
            None => value_fault(n - 1, items[n - 1]),
        }
    }
}

/// The value under a key.
pub open spec fn value_under(entries: Seq<(String, JsonValue)>, key: Seq<char>) -> Option<JsonValue>
    decreases entries.len(),
{
    if entries.len() == 0 {
        None
    } else if entries.last().0@ == key {
        Some(entries.last().1)
    } else {
        value_under(entries.drop_last(), key)
    }
}

/// The count in a field that may be missing.
pub open spec fn count_in(value: Option<JsonValue>) -> Option<u32> {
    match value {
        Some(value) => match count_of(value) {
            Ok(count) => count,
            Err(_) => None,
        },
        None => None,
    }
}

/// The flag in a field that may be missing.
pub open spec fn flag_in(value: Option<JsonValue>) -> Option<bool> {
    match value {
        Some(value) => match flag_of(value) {
            Ok(flag) => flag,
            Err(_) => None,
        },
        None => None,
    }
}

/// The options whose fields hold the given values.
pub open spec fn options_with(value: spec_fn(int) -> Option<JsonValue>) -> RolloutOptions {
    RolloutOptions {
        trials: count_in(value(0)),
        cubeful: flag_in(value(1)),
        variance_reduction: flag_in(value(2)),
        chequer_plies: count_in(value(3)),
        cube_plies: count_in(value(4)),
        seed: count_in(value(5)),
        truncate: flag_in(value(6)),
        truncate_plies: count_in(value(7)),
    }
}

/// How options are read. An object gives fields by name; every key must be the
/// name of a field. An array gives fields in their order, and may stop early.
/// Anything else is no options.
pub open spec fn read_options(value: JsonValue) -> Result<RolloutOptions, Seq<char>> {
    match value {
        JsonValue::Object(entries) => match object_fault(entries@, entries@.len()) {
            Some(message) => Err(message),
            None => Ok(
                options_with(|field: int| value_under(entries@, field_names()[field]@)),
            ),
        },
        JsonValue::List(items) => {
            let len = items@.len();
            match list_fault(items@, if len < 8 { len } else { 8 }) {
                Some(message) => Err(message),
                None => if len > 8 {
                    Err(invalid_length(len, EXPECTED_SHORTER@))
                } else {
                    Ok(
                        options_with(
                            |field: int|
                                if field < len {
                                    Some(items@[field])
                                } else {
                                    None
                                },
                        ),
                    )
                },
            }
        },
        _ => Err(invalid_type(value, EXPECTED_OPTIONS@)),
    }
}

/// The names are all different.
pub proof fn lemma_names_differ(a: int, b: int)
    requires
        0 <= a < 8,
        0 <= b < 8,
        field_names()[a]@ == field_names()[b]@,
    ensures
        a == b,
{
    reveal_strlit("trials");
    reveal_strlit("cubeful");
    reveal_strlit("varianceReduction");
    reveal_strlit("chequerPlies");
    reveal_strlit("cubePlies");
    reveal_strlit("seed");
    reveal_strlit("truncate");
    reveal_strlit("truncatePlies");
    assert(field_names()[0]@.len() == 6);
    assert(field_names()[1]@.len() == 7);
    assert(field_names()[2]@.len() == 17);
    assert(field_names()[3]@.len() == 12);
    assert(field_names()[4]@.len() == 9);
    assert(field_names()[5]@.len() == 4);
    assert(field_names()[6]@.len() == 8);
    assert(field_names()[7]@.len() == 13);
}

/// Reads a count: [`count_of`].
fn read_count(value: &JsonValue) -> (count: Result<Option<u32>, String>)
    ensures
        match count {
            Ok(count) => count_of(*value) == Ok::<_, Seq<char>>(count),
            Err(message) => count_of(*value) == Err::<Option<u32>, _>(message@),
        },
{
    match value {
        JsonValue::Null => Ok(None),
        JsonValue::Unsigned(n) => if *n <= u32::MAX as u64 {
            Ok(Some(*n as u32))
        } else {
            Err(invalid_value_error(Found::Unsigned(*n), EXPECTED_U32))
        },
        JsonValue::Signed(n) => if 0 <= *n && *n <= u32::MAX as i64 {
            Ok(Some(*n as u32))
        } else {
            Err(invalid_value_error(Found::Signed(*n), EXPECTED_U32))
        },
        _ => Err(invalid_type_text(value, EXPECTED_U32)),
    }
}

/// Reads a flag: [`flag_of`].
fn read_flag(value: &JsonValue) -> (flag: Result<Option<bool>, String>)
    ensures
        match flag {
            Ok(flag) => flag_of(*value) == Ok::<_, Seq<char>>(flag),
            Err(message) => flag_of(*value) == Err::<Option<bool>, _>(message@),
        },
{
    match value {
        JsonValue::Null => Ok(None),
        JsonValue::Bool(b) => Ok(Some(*b)),
        _ => Err(invalid_type_text(value, EXPECTED_BOOL)),
    }
}

/// Checks a value for a field: [`value_fault`].
fn check_value(field: usize, value: &JsonValue) -> (fault: Option<String>)
    ensures
        match fault {
            Some(message) => value_fault(field as int, *value) == Some(message@),
            None => value_fault(field as int, *value) is None,
        },
{
    if field == 1 || field == 2 || field == 6 {
        match read_flag(value) {
            Ok(_) => None,
            Err(message) => Some(message),
        }
    } else {
        match read_count(value) {
            Ok(_) => None,
            Err(message) => Some(message),
        }
    }
}

/// The index of the field that `key` names.
fn field_index(key: &str) -> (field: Option<usize>)
    ensures
        match field {
            Some(field) => names_field(key@, field as int),
            None => !exists|field: int| names_field(key@, field),
        },
{
    let names = names();
    let mut i: usize = 0;
    while i < names.len()
        invariant
            names@ == field_names(),
            i <= names@.len(),
            forall|j: int| 0 <= j < i ==> !names_field(key@, j),
        decreases names@.len() - i,
    {
        if same_text(key, names[i]) {
            return Some(i);
        }
        i = i + 1;
    }
    None
}

/// Checks an entry of an object: [`entry_fault`].
fn check_entry(entries: &Vec<(String, JsonValue)>, i: usize) -> (fault: Option<String>)
    requires
        i < entries@.len(),
    ensures
        match fault {
            Some(message) => entry_fault(entries@, i as int) == Some(message@),
            None => entry_fault(entries@, i as int) is None,
        },
{
    let key = entries[i].0.as_str();
    match field_index(key) {
        None => Some(unknown_field_text(key, names())),
        Some(field) => {
            assert(names_field(key@, field as int));
            let mut j: usize = 0;
            while j < i
                invariant
                    j <= i < entries@.len(),
                    key@ == entries@[i as int].0@,
                    names_field(key@, field as int),
                    forall|k: int| 0 <= k < j ==> (#[trigger] entries@[k]).0@ != key@,
                decreases i - j,
            {
                if same_text(entries[j].0.as_str(), key) {
                    assert(entries@[j as int].0@ == key@);
                    return Some(duplicate_field_text(names()[field]));
                }
                j = j + 1;
            }
            proof {
                let chosen = choose|field: int| names_field(key@, field);
                assert(names_field(key@, chosen));
                lemma_names_differ(chosen, field as int);
            }
            check_value(field, &entries[i].1)
        },
    }
}

/// Finds the value under a key: [`value_under`].
fn find<'a>(entries: &'a Vec<(String, JsonValue)>, key: &str) -> (value: Option<&'a JsonValue>)
    ensures
        match value {
            Some(value) => value_under(entries@, key@) == Some(*value),
            None => value_under(entries@, key@) is None,
        },
{
    let mut i: usize = entries.len();
    assert(entries@.take(i as int) =~= entries@);
    while i > 0
        invariant
            i <= entries@.len(),
            value_under(entries@, key@) == value_under(entries@.take(i as int), key@),
        decreases i,
    {
        assert(entries@.take(i as int).drop_last() =~= entries@.take(i - 1));
        if same_text(entries[i - 1].0.as_str(), key) {
            return Some(&entries[i - 1].1);
        }
        i = i - 1;
    }
    None
}

/// Takes a count where there is one: [`count_in`].
fn take_count(value: Option<&JsonValue>) -> (count: Option<u32>)
    ensures
        count == count_in(
            match value {
                Some(value) => Some(*value),
                None => None,
            },
        ),
{
    match value {
        Some(value) => match read_count(value) {
            Ok(count) => count,
            Err(_) => None,
        },
        None => None,
    }
}

/// Takes a flag where there is one: [`flag_in`].
fn take_flag(value: Option<&JsonValue>) -> (flag: Option<bool>)
    ensures
        flag == flag_in(
            match value {
                Some(value) => Some(*value),
                None => None,
            },
        ),
{
    match value {
        Some(value) => match read_flag(value) {
            Ok(flag) => flag,
            Err(_) => None,
        },
        None => None,
    }
}

/// Reads the entries of an object.
fn read_object(entries: &Vec<(String, JsonValue)>) -> (options: Result<RolloutOptions, String>)
    ensures
        match options {
            Ok(options) => object_fault(entries@, entries@.len()) is None && options
                == options_with(|field: int| value_under(entries@, field_names()[field]@)),
            Err(message) => object_fault(entries@, entries@.len()) == Some(message@),
        },
{
    let mut i: usize = 0;
    while i < entries.len()
        invariant
            i <= entries@.len(),
            object_fault(entries@, i as nat) is None,
        decreases entries@.len() - i,
    {
        match check_entry(entries, i) {
            Some(message) => {
                proof {
                    lemma_object_fault_stays(entries@, (i + 1) as nat, entries@.len());
                }
                return Err(message);
            },
            None => {},
        }
        i = i + 1;
    }
    let names = names();
    Ok(
        RolloutOptions {
            trials: take_count(find(entries, names[0])),
            cubeful: take_flag(find(entries, names[1])),
            variance_reduction: take_flag(find(entries, names[2])),
            chequer_plies: take_count(find(entries, names[3])),
            cube_plies: take_count(find(entries, names[4])),
            seed: take_count(find(entries, names[5])),
            truncate: take_flag(find(entries, names[6])),
            truncate_plies: take_count(find(entries, names[7])),
        },
    )
}

/// The first fault stays the first however many entries follow.
proof fn lemma_object_fault_stays(entries: Seq<(String, JsonValue)>, n: nat, m: nat)
    requires
        n <= m,
        object_fault(entries, n) is Some,
    ensures
        object_fault(entries, m) == object_fault(entries, n),
    decreases m,
{
    if n < m {
        lemma_object_fault_stays(entries, n, (m - 1) as nat);
    }
}

/// The first fault stays the first however many elements follow.
proof fn lemma_list_fault_stays(items: Seq<JsonValue>, n: nat, m: nat)
    requires
        n <= m,
        list_fault(items, n) is Some,
    ensures
        list_fault(items, m) == list_fault(items, n),
    decreases m,
{
    if n < m {
        lemma_list_fault_stays(items, n, (m - 1) as nat);
    }
}

/// The element at an index, where there is one.
fn element(items: &Vec<JsonValue>, i: usize) -> (item: Option<&JsonValue>)
    ensures
        match item {
            Some(item) => i < items@.len() && *item == items@[i as int],
            None => i >= items@.len(),
        },
{
    if i < items.len() {
        Some(&items[i])
    } else {
        None
    }
}

/// Reads the elements of an array.
fn read_list(items: &Vec<JsonValue>) -> (options: Result<RolloutOptions, String>)
    ensures
        match options {
            Ok(options) => list_fault(items@, items@.len()) is None && items@.len() <= 8 && options
                == options_with(
                |field: int|
                    if field < items@.len() {
                        Some(items@[field])
                    } else {
                        None
                    },
            ),
            Err(message) => {
                let n = if items@.len() < 8 {
                    items@.len()
                } else {
                    8
                };
                ||| list_fault(items@, n) == Some(message@)
                ||| list_fault(items@, n) is None && items@.len() > 8 && message@
                    == invalid_length(items@.len(), EXPECTED_SHORTER@)
            },
        },
{
    let n: usize = if items.len() < 8 {
        items.len()
    } else {
        8
    };
    let mut i: usize = 0;
    while i < n
        invariant
            i <= n <= items@.len(),
            n == 8 || n < 8 && n == items@.len(),
            list_fault(items@, i as nat) is None,
        decreases n - i,
    {
        match check_value(i, &items[i]) {
            Some(message) => {
                proof {
                    lemma_list_fault_stays(items@, (i + 1) as nat, n as nat);
                }
                return Err(message);
            },
            None => {},
        }
        i = i + 1;
    }
    if items.len() > 8 {
        return Err(invalid_length_text(items.len(), EXPECTED_SHORTER));
    }
    Ok(
        RolloutOptions {
            trials: take_count(element(items, 0)),
            cubeful: take_flag(element(items, 1)),
            variance_reduction: take_flag(element(items, 2)),
            chequer_plies: take_count(element(items, 3)),
            cube_plies: take_count(element(items, 4)),
            seed: take_count(element(items, 5)),
            truncate: take_flag(element(items, 6)),
            truncate_plies: take_count(element(items, 7)),
        },
    )
}

impl RolloutOptions {
    /// Reads options from a request's JSON value: [`read_options`].
    pub fn from_json(value: &JsonValue) -> (options: Result<RolloutOptions, String>)
        ensures
            match options {
                Ok(options) => read_options(*value) == Ok::<_, Seq<char>>(options),
                Err(message) => read_options(*value) == Err::<RolloutOptions, _>(message@),
            },
    {
        match value {
            JsonValue::Object(entries) => read_object(entries),
            JsonValue::List(items) => read_list(items),
            _ => Err(invalid_type_text(value, EXPECTED_OPTIONS)),
        }
    }
}

} // verus!
