//! The command line, where the daemon's files are, and the switch for request
//! logging.

use vstd::prelude::*;

use crate::engine::{WEIGHTS_BINARY_FILENAME, WEIGHTS_FILENAME};
use crate::text::{
    chars_of, is_white_space, lower_case, lower_char, quoted, quoted_text, same_text, views,
    white_space,
};

verus! {

/// Where the engine library is, when no flag says so.
pub const ENV_GNUBGAPI_LIB: &'static str = "GNUBGAPI_LIB";

/// Switches request logging on.
pub const ENV_LOG_REQUESTS: &'static str = "BEP_LOG_REQUESTS";

pub const FLAG_GNUBGAPI_LIB: &'static str = "--gnubgapi-lib";

pub const FLAG_DATA_DIR: &'static str = "--data-dir";

pub const FLAG_WEIGHTS: &'static str = "--weights";

pub const FLAG_WEIGHTS_BINARY: &'static str = "--weights-binary";

pub const FLAG_NO_BEAROFF: &'static str = "--no-bearoff";

pub const FLAG_HELP: &'static str = "--help";

/// The directory of the data, beside the executable.
pub const DEFAULT_DATA_SUBDIR: &'static str = "data";

/// What the command line says.
#[derive(Debug)]
pub struct Args {
    pub gnubgapi_lib: Option<String>,
    pub data_dir: Option<String>,
    pub weights: Option<String>,
    pub weights_binary: Option<String>,
    pub no_bearoff: bool,
}

/// The texts of what the command line says.
pub struct ArgTexts {
    pub gnubgapi_lib: Option<Seq<char>>,
    pub data_dir: Option<Seq<char>>,
    pub weights: Option<Seq<char>>,
    pub weights_binary: Option<Seq<char>>,
    pub no_bearoff: bool,
}

/// The text of an argument, where there is one.
pub open spec fn arg_text(arg: Option<String>) -> Option<Seq<char>> {
    match arg {
        Some(arg) => Some(arg@),
        None => None,
    }
}

impl View for Args {
    type V = ArgTexts;

    open spec fn view(&self) -> ArgTexts {
        ArgTexts {
            gnubgapi_lib: arg_text(self.gnubgapi_lib),
            data_dir: arg_text(self.data_dir),
            weights: arg_text(self.weights),
            weights_binary: arg_text(self.weights_binary),
            no_bearoff: self.no_bearoff,
        }
    }
}

/// The arguments of an empty command line.
pub open spec fn no_args() -> ArgTexts {
    ArgTexts {
        gnubgapi_lib: None,
        data_dir: None,
        weights: None,
        weights_binary: None,
        no_bearoff: false,
    }
}

/// How the daemon is used, on a platform where the engine library has the given
/// file name.
pub open spec fn usage_text(library: Seq<char>) -> Seq<char> {
    "usage: gnubg-engine-server ["@ + FLAG_GNUBGAPI_LIB@ + " <path>] ["@ + FLAG_DATA_DIR@
        + " <dir>] ["@ + FLAG_WEIGHTS@ + " <path>] ["@ + FLAG_WEIGHTS_BINARY@ + " <path>] ["@
        + FLAG_NO_BEAROFF@ + "]\nDefaults: engine library "@ + library
        + " next to the executable (or $"@ + ENV_GNUBGAPI_LIB@ + "), data in <exe dir>/"@
        + DEFAULT_DATA_SUBDIR@ + " with "@ + WEIGHTS_FILENAME@ + "/"@ + WEIGHTS_BINARY_FILENAME@
        + " inside it"@
}

/// Says how the daemon is used: [`usage_text`].
pub fn usage(library: &str) -> (text: String)
    ensures
        text@ == usage_text(library@),
{
    let mut text = "usage: gnubg-engine-server [".to_owned();
    text.append(FLAG_GNUBGAPI_LIB);
    text.append(" <path>] [");
    text.append(FLAG_DATA_DIR);
    text.append(" <dir>] [");
    text.append(FLAG_WEIGHTS);
    text.append(" <path>] [");
    text.append(FLAG_WEIGHTS_BINARY);
    text.append(" <path>] [");
    text.append(FLAG_NO_BEAROFF);
    text.append("]\nDefaults: engine library ");
    text.append(library);
    text.append(" next to the executable (or $");
    text.append(ENV_GNUBGAPI_LIB);
    text.append("), data in <exe dir>/");
    text.append(DEFAULT_DATA_SUBDIR);
    text.append(" with ");
    text.append(WEIGHTS_FILENAME);
    text.append("/");
    text.append(WEIGHTS_BINARY_FILENAME);
    text.append(" inside it");
    text
}

/// Whether a flag takes a value.
pub open spec fn takes_value(flag: Seq<char>) -> bool {
    ||| flag == FLAG_GNUBGAPI_LIB@
    ||| flag == FLAG_DATA_DIR@
    ||| flag == FLAG_WEIGHTS@
    ||| flag == FLAG_WEIGHTS_BINARY@
}

/// Arguments with the value of a flag set.
pub open spec fn with_value(args: ArgTexts, flag: Seq<char>, value: Seq<char>) -> ArgTexts {
    if flag == FLAG_GNUBGAPI_LIB@ {
        ArgTexts { gnubgapi_lib: Some(value), ..args }
    } else if flag == FLAG_DATA_DIR@ {
        ArgTexts { data_dir: Some(value), ..args }
    } else if flag == FLAG_WEIGHTS@ {
        ArgTexts { weights: Some(value), ..args }
    } else {
        ArgTexts { weights_binary: Some(value), ..args }
    }
}

/// What the rest of a command line adds to the arguments read so far, flag by
/// flag, and otherwise what is said of the first flag that is wrong.
pub open spec fn parsed(
    rest: Seq<Seq<char>>,
    args: ArgTexts,
    library: Seq<char>,
) -> Result<ArgTexts, Seq<char>>
    decreases rest.len(),
{
    if rest.len() == 0 {
        Ok(args)
    } else if takes_value(rest[0]) {
        if rest.len() < 2 {
            Err(rest[0] + " requires a value\n"@ + usage_text(library))
        } else {
            parsed(rest.skip(2), with_value(args, rest[0], rest[1]), library)
        }
    } else if rest[0] == FLAG_NO_BEAROFF@ {
        parsed(rest.skip(1), ArgTexts { no_bearoff: true, ..args }, library)
    } else if rest[0] == FLAG_HELP@ {
        Err(usage_text(library))
    } else {
        Err("unknown argument "@ + quoted_text(rest[0]) + "\n"@ + usage_text(library))
    }
}

/// Reads a command line, without the program's name: [`parsed`].
pub fn parse_args(line: &Vec<String>, library: &str) -> (result: Result<Args, String>)
    ensures
        match result {
            Ok(args) => parsed(views(line@), no_args(), library@) == Ok::<_, Seq<char>>(args@),
            Err(message) => parsed(views(line@), no_args(), library@) == Err::<ArgTexts, _>(
                message@,
            ),
        },
{
    let mut args = Args {
        gnubgapi_lib: None,
        data_dir: None,
        weights: None,
        weights_binary: None,
        no_bearoff: false,
    };
    let mut i: usize = 0;
    let ghost all = views(line@);
    assert(all.skip(0) =~= all);
    while i < line.len()
        invariant
            i <= line@.len(),
            all == views(line@),
            parsed(all, no_args(), library@) == parsed(all.skip(i as int), args@, library@),
        decreases line@.len() - i,
    {
        let ghost rest = all.skip(i as int);
        let flag = line[i].as_str();
        assert(rest[0] == flag@);
        assert(rest.skip(1) =~= all.skip(i + 1));
        let library_flag = same_text(flag, FLAG_GNUBGAPI_LIB);
        let data_flag = same_text(flag, FLAG_DATA_DIR);
        let weights_flag = same_text(flag, FLAG_WEIGHTS);
        let binary_flag = same_text(flag, FLAG_WEIGHTS_BINARY);
        if library_flag || data_flag || weights_flag || binary_flag {
            if line.len() - i < 2 {
                let mut message = flag.to_owned();
                message.append(" requires a value\n");
                message.append(usage(library).as_str());
                return Err(message);
            }
            assert(rest[1] == line@[i + 1]@);
            assert(rest.skip(2) =~= all.skip(i + 2));
            let ghost before = args@;
            let value = Some(line[i + 1].clone());
            if library_flag {
                args.gnubgapi_lib = value;
            } else if data_flag {
                args.data_dir = value;
            } else if weights_flag {
                args.weights = value;
            } else {
                args.weights_binary = value;
            }
            assert(args@ == with_value(before, rest[0], rest[1]));
            i = i + 2;
        } else if same_text(flag, FLAG_NO_BEAROFF) {
            args.no_bearoff = true;
            i = i + 1;
        } else if same_text(flag, FLAG_HELP) {
            return Err(usage(library));
        } else {
            let mut message = "unknown argument ".to_owned();
            message.append(quoted(flag).as_str());
            message.append("\n");
            message.append(usage(library).as_str());
            return Err(message);
        }
    }
    Ok(args)
}

/// A command line that is read can be split between flags: reading its parts
/// one after the other is reading it as a whole, so a later value of a flag
/// replaces an earlier one.
pub proof fn law_args_in_order(
    first: Seq<Seq<char>>,
    second: Seq<Seq<char>>,
    args: ArgTexts,
    library: Seq<char>,
)
    requires
        parsed(first, args, library) is Ok,
    ensures
        parsed(first + second, args, library) == parsed(
            second,
            parsed(first, args, library)->Ok_0,
            library,
        ),
    decreases first.len(),
{
    let all = first + second;
    if first.len() == 0 {
        assert(all =~= second);
    } else if takes_value(first[0]) {
        assert(all[0] == first[0] && all[1] == first[1]);
        assert(all.skip(2) =~= first.skip(2) + second);
        law_args_in_order(first.skip(2), second, with_value(args, first[0], first[1]), library);
    } else {
        assert(all[0] == first[0]);
        assert(all.skip(1) =~= first.skip(1) + second);
        law_args_in_order(
            first.skip(1),
            second,
            ArgTexts { no_bearoff: true, ..args },
            library,
        );
    }
}

/// Where a path starts.
#[derive(Debug)]
pub enum PathRoot {
    /// Where the command line says.
    Given(String),
    /// Where the environment says.
    Environment,
    /// The executable's directory.
    ExeDir,
}

/// A path: where it starts, and the names below.
#[derive(Debug)]
pub struct PathPlan {
    pub root: PathRoot,
    pub names: Vec<String>,
}

/// Where the daemon's files are.
#[derive(Debug)]
pub struct Layout {
    pub library: PathPlan,
    pub data_dir: PathPlan,
    pub weights: PathPlan,
    pub weights_binary: PathPlan,
}

/// Whether a path is one that was given.
pub open spec fn is_given(path: PathPlan, given: Seq<char>) -> bool {
    &&& path.root matches PathRoot::Given(text)
    &&& text@ == given
    &&& path.names@.len() == 0
}

/// Whether a path is below the executable's directory.
pub open spec fn is_beside_exe(path: PathPlan, names: Seq<Seq<char>>) -> bool {
    &&& path.root is ExeDir
    &&& views(path.names@) == names
}

/// Whether a path is that of a file below the data directory.
pub open spec fn is_in_data_dir(path: PathPlan, data_dir: Option<Seq<char>>, name: Seq<char>) -> bool {
    match data_dir {
        Some(given) => {
            &&& path.root matches PathRoot::Given(text)
            &&& text@ == given
            &&& views(path.names@) == seq![name]
        },
        None => is_beside_exe(path, seq![DEFAULT_DATA_SUBDIR@, name]),
    }
}

/// Whether a layout is that of the arguments: what a flag names stands where the
/// flag says, and the rest at its default. The environment names the library
/// where no flag does.
pub open spec fn lays_out(
    layout: Layout,
    args: ArgTexts,
    in_environment: bool,
    library: Seq<char>,
) -> bool {
    &&& match args.gnubgapi_lib {
        Some(given) => is_given(layout.library, given),
        None => if in_environment {
            layout.library.root is Environment && layout.library.names@.len() == 0
        } else {
            is_beside_exe(layout.library, seq![library])
        },
    }
    &&& match args.data_dir {
        Some(given) => is_given(layout.data_dir, given),
        None => is_beside_exe(layout.data_dir, seq![DEFAULT_DATA_SUBDIR@]),
    }
    &&& match args.weights {
        Some(given) => is_given(layout.weights, given),
        None => is_in_data_dir(layout.weights, args.data_dir, WEIGHTS_FILENAME@),
    }
    &&& match args.weights_binary {
        Some(given) => is_given(layout.weights_binary, given),
        None => is_in_data_dir(layout.weights_binary, args.data_dir, WEIGHTS_BINARY_FILENAME@),
    }
}

/// A path that was given.
fn given(path: &String) -> (plan: PathPlan)
    ensures
        is_given(plan, path@),
{
    PathPlan { root: PathRoot::Given(path.clone()), names: Vec::new() }
}

/// The path of a file below the data directory.
fn in_data_dir(data_dir: &Option<String>, name: &str) -> (plan: PathPlan)
    ensures
        is_in_data_dir(plan, arg_text(*data_dir), name@),
{
    let mut names: Vec<String> = Vec::new();
    match data_dir {
        Some(path) => {
            names.push(name.to_owned());
            assert(views(names@) =~= seq![name@]);
            PathPlan { root: PathRoot::Given(path.clone()), names }
        },
        None => {
            names.push(DEFAULT_DATA_SUBDIR.to_owned());
            names.push(name.to_owned());
            assert(views(names@) =~= seq![DEFAULT_DATA_SUBDIR@, name@]);
            PathPlan { root: PathRoot::ExeDir, names }
        },
    }
}

/// The path of a file or directory beside the executable.
fn beside_exe(name: &str) -> (plan: PathPlan)
    ensures
        is_beside_exe(plan, seq![name@]),
{
    let mut names: Vec<String> = Vec::new();
    names.push(name.to_owned());
    assert(views(names@) =~= seq![name@]);
    PathPlan { root: PathRoot::ExeDir, names }
}

/// Lays out the daemon's files: [`lays_out`].
pub fn lay_out(args: &Args, in_environment: bool, library: &str) -> (layout: Layout)
    ensures
        lays_out(layout, args@, in_environment, library@),
{
    let library = match &args.gnubgapi_lib {
        Some(path) => given(path),
        None => if in_environment {
            PathPlan { root: PathRoot::Environment, names: Vec::new() }
        } else {
            beside_exe(library)
        },
    };
    let data_dir = match &args.data_dir {
        Some(path) => given(path),
        None => beside_exe(DEFAULT_DATA_SUBDIR),
    };
    let weights = match &args.weights {
        Some(path) => given(path),
        None => in_data_dir(&args.data_dir, WEIGHTS_FILENAME),
    };
    let weights_binary = match &args.weights_binary {
        Some(path) => given(path),
        None => in_data_dir(&args.data_dir, WEIGHTS_BINARY_FILENAME),
    };
    Layout { library, data_dir, weights, weights_binary }
}

/// Whether a result is what the check for the engine library gives.
pub open spec fn checks_library(checked: Result<(), String>, found: bool, path: Seq<char>) -> bool {
    match checked {
        Ok(_) => found,
        Err(message) => !found && message@ == "engine library not found: "@ + path + " (set "@
            + FLAG_GNUBGAPI_LIB@ + " or "@ + ENV_GNUBGAPI_LIB@ + ")"@,
    }
}

/// A missing engine library is a failure that names its path and what sets it; a
/// library that is there is none.
pub proof fn law_missing_library(checked: Result<(), String>, found: bool, path: Seq<char>)
    requires
        checks_library(checked, found, path),
    ensures
        found <==> checked is Ok,
        checked matches Err(message) ==> message@ == "engine library not found: "@ + path
            + " (set "@ + "--gnubgapi-lib"@ + " or "@ + "GNUBGAPI_LIB"@ + ")"@,
{
}

/// Checks that the engine library was found at its path.
pub fn check_library(found: bool, path: &str) -> (checked: Result<(), String>)
    ensures
        checks_library(checked, found, path@),
{
    if found {
        Ok(())
    } else {
        let mut message = "engine library not found: ".to_owned();
        message.append(path);
        message.append(" (set ");
        message.append(FLAG_GNUBGAPI_LIB);
        message.append(" or ");
        message.append(ENV_GNUBGAPI_LIB);
        message.append(")");
        Err(message)
    }
}

/// A file or directory that was looked for, by its path.
#[derive(Debug)]
pub struct Sought {
    pub found: bool,
    pub path: String,
}

/// Whether a result is what the check for the data gives.
pub open spec fn checks_data(
    checked: Result<(), String>,
    weights: Sought,
    weights_binary: Sought,
    data_dir: Sought,
) -> bool {
    match checked {
        Ok(_) => weights.found && weights_binary.found && data_dir.found,
        Err(message) => if !weights.found {
            message@ == "weights file not found: "@ + weights.path@
        } else if !weights_binary.found {
            message@ == "weights binary file not found: "@ + weights_binary.path@
        } else {
            !data_dir.found && message@ == "data directory not found: "@ + data_dir.path@
        },
    }
}

/// The data are there exactly when both weights and their directory are; the
/// first that is missing is named with its own path.
pub proof fn law_missing_data(
    checked: Result<(), String>,
    weights: Sought,
    weights_binary: Sought,
    data_dir: Sought,
)
    requires
        checks_data(checked, weights, weights_binary, data_dir),
    ensures
        checked is Ok <==> weights.found && weights_binary.found && data_dir.found,
        !weights.found ==> (checked matches Err(message) && message@ == "weights file not found: "@
            + weights.path@),
        weights.found && !weights_binary.found ==> (checked matches Err(message) && message@
            == "weights binary file not found: "@ + weights_binary.path@),
        weights.found && weights_binary.found && !data_dir.found ==> (checked matches Err(message)
            && message@ == "data directory not found: "@ + data_dir.path@),
{
}

/// Checks that the data was found: the weights, then the binary weights, then
/// the directory. The first that is missing is named.
pub fn check_data(weights: &Sought, weights_binary: &Sought, data_dir: &Sought) -> (checked: Result<
    (),
    String,
>)
    ensures
        checks_data(checked, *weights, *weights_binary, *data_dir),
{
    if !weights.found {
        let mut message = "weights file not found: ".to_owned();
        message.append(weights.path.as_str());
        return Err(message);
    }
    if !weights_binary.found {
        let mut message = "weights binary file not found: ".to_owned();
        message.append(weights_binary.path.as_str());
        return Err(message);
    }
    if !data_dir.found {
        let mut message = "data directory not found: ".to_owned();
        message.append(data_dir.path.as_str());
        return Err(message);
    }
    Ok(())
}

/// A text without the white space in front.
pub open spec fn trim_front(text: Seq<char>) -> Seq<char>
    decreases text.len(),
{
    if text.len() > 0 && white_space(text[0]) {
        trim_front(text.drop_first())
    } else {
        text
    }
}

/// A text without the white space at its end.
pub open spec fn trim_back(text: Seq<char>) -> Seq<char>
    decreases text.len(),
{
    if text.len() > 0 && white_space(text.last()) {
        trim_back(text.drop_last())
    } else {
        text
    }
}

/// Whether a value of the switch turns request logging on: anything but white
/// space, `0` and `false`.
pub open spec fn switches_on(value: Seq<char>) -> bool {
    let trimmed = trim_back(trim_front(value));
    &&& trimmed.len() > 0
    &&& trimmed != "0"@
    &&& lower_case(trimmed) != "false"@
}

/// Decides whether requests are logged, by the switch's value where it has one:
/// [`switches_on`].
pub fn request_logging_enabled(value: Option<&str>) -> (enabled: bool)
    ensures
        enabled == match value {
            Some(value) => switches_on(value@),
            None => false,
        },
{
    match value {
        None => false,
        Some(value) => {
            let chars = chars_of(value);
            let mut start: usize = 0;
            assert(chars@.skip(0) =~= chars@);
            while start < chars.len() && is_white_space(chars[start])
                invariant
                    start <= chars@.len(),
                    trim_front(chars@) == trim_front(chars@.skip(start as int)),
                decreases chars@.len() - start,
            {
                assert(chars@.skip(start as int).drop_first() =~= chars@.skip(start + 1));
                start = start + 1;
            }
            let ghost front = chars@.skip(start as int);
            assert(trim_front(chars@) == front);
            let mut end: usize = chars.len();
            assert(chars@.subrange(start as int, end as int) =~= front);
            while end > start && is_white_space(chars[end - 1])
                invariant
                    start <= end <= chars@.len(),
                    trim_back(front) == trim_back(chars@.subrange(start as int, end as int)),
                decreases end,
            {
                let ghost here = chars@.subrange(start as int, end as int);
                assert(here.last() == chars@[end - 1]);
                assert(here.drop_last() =~= chars@.subrange(start as int, end - 1));
                end = end - 1;
            }
            let ghost trimmed = chars@.subrange(start as int, end as int);
            assert(trimmed == trim_back(trim_front(value@))) by {
                if end > start {
                    assert(trimmed.last() == chars@[end - 1]);
                }
            }
            let mut text = String::new();
            let mut lower = String::new();
            let mut i: usize = start;
            while i < end
                invariant
                    start <= i <= end <= chars@.len(),
                    text@ == chars@.subrange(start as int, i as int),
                    lower@ == lower_case(chars@.subrange(start as int, i as int)),
                decreases end - i,
            {
                let c = chars[i];
                text.push(c);
                let small = lower_char(c);
                lower.push(small);
                assert(chars@.subrange(start as int, i + 1) =~= chars@.subrange(
                    start as int,
                    i as int,
                ).push(c));
                assert(lower@ =~= lower_case(chars@.subrange(start as int, i + 1)));
                i = i + 1;
            }
            end > start && !same_text(text.as_str(), "0") && !same_text(lower.as_str(), "false")
        },
    }
}

/// Each flag that takes a value sets what it is named for and nothing else, and
/// without a value it is complained about.
pub proof fn law_flags_with_values(value: Seq<char>, args: ArgTexts, library: Seq<char>)
    ensures
        parsed(seq!["--gnubgapi-lib"@, value], args, library) == Ok::<_, Seq<char>>(
            ArgTexts { gnubgapi_lib: Some(value), ..args },
        ),
        parsed(seq!["--data-dir"@, value], args, library) == Ok::<_, Seq<char>>(
            ArgTexts { data_dir: Some(value), ..args },
        ),
        parsed(seq!["--weights"@, value], args, library) == Ok::<_, Seq<char>>(
            ArgTexts { weights: Some(value), ..args },
        ),
        parsed(seq!["--weights-binary"@, value], args, library) == Ok::<_, Seq<char>>(
            ArgTexts { weights_binary: Some(value), ..args },
        ),
        parsed(seq!["--gnubgapi-lib"@], args, library) == Err::<ArgTexts, _>(
            "--gnubgapi-lib"@ + " requires a value\n"@ + usage_text(library),
        ),
        parsed(seq!["--data-dir"@], args, library) == Err::<ArgTexts, _>(
            "--data-dir"@ + " requires a value\n"@ + usage_text(library),
        ),
        parsed(seq!["--weights"@], args, library) == Err::<ArgTexts, _>(
            "--weights"@ + " requires a value\n"@ + usage_text(library),
        ),
        parsed(seq!["--weights-binary"@], args, library) == Err::<ArgTexts, _>(
            "--weights-binary"@ + " requires a value\n"@ + usage_text(library),
        ),
{
    lemma_flags_differ();
    reveal_with_fuel(parsed, 2);
    assert(seq!["--gnubgapi-lib"@, value].skip(2) =~= Seq::<Seq<char>>::empty());
    assert(seq!["--data-dir"@, value].skip(2) =~= Seq::<Seq<char>>::empty());
    assert(seq!["--weights"@, value].skip(2) =~= Seq::<Seq<char>>::empty());
    assert(seq!["--weights-binary"@, value].skip(2) =~= Seq::<Seq<char>>::empty());
}

/// The other flags: one leaves the bearoff data out and sets nothing else, one
/// asks how the daemon is used, and an unknown one is named, whatever follows.
pub proof fn law_other_flags(
    flag: Seq<char>,
    rest: Seq<Seq<char>>,
    args: ArgTexts,
    library: Seq<char>,
)
    ensures
        parsed(Seq::empty(), args, library) == Ok::<_, Seq<char>>(args),
        parsed(seq!["--no-bearoff"@], args, library) == Ok::<_, Seq<char>>(
            ArgTexts { no_bearoff: true, ..args },
        ),
        parsed(seq!["--help"@] + rest, args, library) == Err::<ArgTexts, _>(usage_text(library)),
        flag != "--gnubgapi-lib"@ && flag != "--data-dir"@ && flag != "--weights"@ && flag
            != "--weights-binary"@ && flag != "--no-bearoff"@ && flag != "--help"@ ==> parsed(
            seq![flag] + rest,
            args,
            library,
        ) == Err::<ArgTexts, _>(
            "unknown argument "@ + quoted_text(flag) + "\n"@ + usage_text(library),
        ),
{
    lemma_flags_differ();
    reveal_with_fuel(parsed, 2);
    assert(seq!["--no-bearoff"@].skip(1) =~= Seq::<Seq<char>>::empty());
    assert((seq!["--help"@] + rest)[0] == "--help"@);
    assert((seq![flag] + rest)[0] == flag);
}

/// Nothing is set before the command line is read.
pub proof fn law_nothing_set_at_first()
    ensures
        no_args().gnubgapi_lib is None,
        no_args().data_dir is None,
        no_args().weights is None,
        no_args().weights_binary is None,
        !no_args().no_bearoff,
{
}

proof fn lemma_flags_differ()
    ensures
        "--gnubgapi-lib"@ != "--data-dir"@,
        "--gnubgapi-lib"@ != "--weights"@,
        "--gnubgapi-lib"@ != "--weights-binary"@,
        "--data-dir"@ != "--weights"@,
        "--data-dir"@ != "--weights-binary"@,
        "--weights"@ != "--weights-binary"@,
        !takes_value("--no-bearoff"@),
        !takes_value("--help"@),
        "--no-bearoff"@ != "--help"@,
{
    reveal_strlit("--gnubgapi-lib");
    reveal_strlit("--data-dir");
    reveal_strlit("--weights");
    reveal_strlit("--weights-binary");
    reveal_strlit("--no-bearoff");
    reveal_strlit("--help");
    assert("--gnubgapi-lib"@.len() == 14);
    assert("--data-dir"@.len() == 10);
    assert("--weights"@.len() == 9);
    assert("--weights-binary"@.len() == 16);
    assert("--no-bearoff"@.len() == 12);
    assert("--help"@.len() == 6);
}

/// Whether a path is one that was given, as it was given.
pub open spec fn stands_at(path: PathPlan, given: Seq<char>) -> bool {
    path.root matches PathRoot::Given(text) && text@ == given && path.names@.len() == 0
}

/// Every path is where its own flag says. Without its flag the library is where
/// the environment says, and beside the executable where that is silent; the
/// data are in `data` beside the executable, and the weights in the data
/// directory, wherever that is.
pub proof fn law_layout(layout: Layout, args: ArgTexts, in_environment: bool, library: Seq<char>)
    requires
        lays_out(layout, args, in_environment, library),
    ensures
        args.gnubgapi_lib matches Some(given) ==> stands_at(layout.library, given),
        args.gnubgapi_lib is None && in_environment ==> layout.library.root is Environment
            && layout.library.names@.len() == 0,
        args.gnubgapi_lib is None && !in_environment ==> layout.library.root is ExeDir && views(
            layout.library.names@,
        ) == seq![library],
        args.data_dir matches Some(given) ==> stands_at(layout.data_dir, given),
        args.data_dir is None ==> layout.data_dir.root is ExeDir && views(layout.data_dir.names@)
            == seq!["data"@],
        args.weights matches Some(given) ==> stands_at(layout.weights, given),
        args.weights is None ==> in_directory(layout.weights, layout.data_dir, "gnubg.weights"@),
        args.weights_binary matches Some(given) ==> stands_at(layout.weights_binary, given),
        args.weights_binary is None ==> in_directory(
            layout.weights_binary,
            layout.data_dir,
            "gnubg.wd"@,
        ),
{
    let data: Seq<Seq<char>> = views(layout.data_dir.names@);
    if args.data_dir is None {
        assert(data.push("gnubg.weights"@) =~= seq!["data"@, "gnubg.weights"@]);
        assert(data.push("gnubg.wd"@) =~= seq!["data"@, "gnubg.wd"@]);
    } else {
        assert(data =~= Seq::<Seq<char>>::empty());
        assert(data.push("gnubg.weights"@) =~= seq!["gnubg.weights"@]);
        assert(data.push("gnubg.wd"@) =~= seq!["gnubg.wd"@]);
    }
}

/// Whether a path is that of a name in a directory.
pub open spec fn in_directory(path: PathPlan, directory: PathPlan, name: Seq<char>) -> bool {
    &&& match directory.root {
        PathRoot::Given(given) => path.root matches PathRoot::Given(text) && text@ == given@,
        PathRoot::Environment => path.root is Environment,
        PathRoot::ExeDir => path.root is ExeDir,
    }
    &&& views(path.names@) == views(directory.names@).push(name)
}

/// Whether a text is white space throughout.
pub open spec fn is_blank(text: Seq<char>) -> bool {
    forall|i: int| 0 <= i < text.len() ==> white_space(#[trigger] text[i])
}

proof fn lemma_trim_front(front: Seq<char>, text: Seq<char>)
    requires
        is_blank(front),
        text.len() == 0 || !white_space(text[0]),
    ensures
        trim_front(front + text) == text,
    decreases front.len(),
{
    let all = front + text;
    if front.len() == 0 {
        assert(all =~= text);
    } else {
        let rest = front.drop_first();
        assert forall|i: int| 0 <= i < rest.len() implies white_space(#[trigger] rest[i]) by {
            assert(rest[i] == front[i + 1]);
        }
        lemma_trim_front(rest, text);
        assert(all[0] == front[0]);
        assert(all.drop_first() =~= rest + text);
    }
}

proof fn lemma_trim_back(text: Seq<char>, back: Seq<char>)
    requires
        is_blank(back),
        text.len() == 0 || !white_space(text.last()),
    ensures
        trim_back(text + back) == text,
    decreases back.len(),
{
    let all = text + back;
    if back.len() == 0 {
        assert(all =~= text);
    } else {
        let rest = back.drop_last();
        assert forall|i: int| 0 <= i < rest.len() implies white_space(#[trigger] rest[i]) by {
            assert(rest[i] == back[i]);
        }
        lemma_trim_back(text, rest);
        assert(all.last() == back.last());
        assert(all.drop_last() =~= text + rest);
    }
}

/// White space around the switch's value does not matter; what stands between
/// switches logging on unless it is nothing, `0`, or `false` in whatever case.
pub proof fn law_switch(front: Seq<char>, value: Seq<char>, back: Seq<char>)
    requires
        is_blank(front),
        is_blank(back),
        value.len() > 0 ==> !white_space(value[0]) && !white_space(value.last()),
    ensures
        switches_on(front + value + back) <==> value.len() > 0 && value != "0"@ && lower_case(value)
            != "false"@,
{
    if value.len() > 0 {
        assert(front + value + back =~= front + (value + back));
        assert((value + back)[0] == value[0]);
        lemma_trim_front(front, value + back);
        lemma_trim_back(value, back);
    } else {
        let all = front + value + back;
        assert forall|i: int| 0 <= i < all.len() implies white_space(#[trigger] all[i]) by {
            if i < front.len() {
                assert(all[i] == front[i]);
            } else {
                assert(all[i] == back[i - front.len()]);
            }
        }
        lemma_trim_front(all, Seq::empty());
        assert(all + Seq::<char>::empty() =~= all);
    }
}

/// The usage names every flag with what it takes, and where things are without
/// them.
pub proof fn law_usage(library: Seq<char>)
    ensures
        usage_text(library) == "usage: gnubg-engine-server ["@ + "--gnubgapi-lib"@ + " <path>] ["@
            + "--data-dir"@ + " <dir>] ["@ + "--weights"@ + " <path>] ["@ + "--weights-binary"@
            + " <path>] ["@ + "--no-bearoff"@ + "]\nDefaults: engine library "@ + library
            + " next to the executable (or $"@ + "GNUBGAPI_LIB"@ + "), data in <exe dir>/"@ + "data"@
            + " with "@ + "gnubg.weights"@ + "/"@ + "gnubg.wd"@ + " inside it"@,
{
}

/// The texts of arguments are those that the arguments hold, each in its own
/// place.
pub proof fn law_argument_texts(args: Args)
    ensures
        args.gnubgapi_lib matches Some(text) ==> args@.gnubgapi_lib == Some(text@),
        args.data_dir matches Some(text) ==> args@.data_dir == Some(text@),
        args.weights matches Some(text) ==> args@.weights == Some(text@),
        args.weights_binary matches Some(text) ==> args@.weights_binary == Some(text@),
        args.gnubgapi_lib is None <==> args@.gnubgapi_lib is None,
        args.data_dir is None <==> args@.data_dir is None,
        args.weights is None <==> args@.weights is None,
        args.weights_binary is None <==> args@.weights_binary is None,
        args@.no_bearoff == args.no_bearoff,
{
}

} // verus!
