//! The command line, the layout of the files, and the logging switch.

use gnubg_engine_server::config::{
    check_data, check_library, lay_out, parse_args, request_logging_enabled, usage, Args,
    PathPlan, PathRoot, Sought,
};

const LIBRARY: &str = "libgnubgapi.so";

fn parse(line: &[&str]) -> Result<Args, String> {
    parse_args(&line.iter().map(|a| a.to_string()).collect(), LIBRARY)
}

#[test]
fn usage_names_every_flag() {
    assert_eq!(
        usage(LIBRARY),
        "usage: gnubg-engine-server [--gnubgapi-lib <path>] [--data-dir <dir>] \
         [--weights <path>] [--weights-binary <path>] [--no-bearoff]\n\
         Defaults: engine library libgnubgapi.so next to the executable (or \
         $GNUBGAPI_LIB), data in <exe dir>/data with gnubg.weights/gnubg.wd inside it"
    );
}

#[test]
fn command_lines_are_read() {
    let args = parse(&[]).unwrap();
    assert!(args.gnubgapi_lib.is_none() && args.data_dir.is_none() && !args.no_bearoff);
    assert!(args.weights.is_none() && args.weights_binary.is_none());
    let args = parse(&[
        "--weights", "w", "--no-bearoff", "--gnubgapi-lib", "l", "--weights-binary", "--help",
        "--data-dir", "d", "--weights", "v",
    ])
    .unwrap();
    assert_eq!(args.gnubgapi_lib.as_deref(), Some("l"));
    assert_eq!(args.data_dir.as_deref(), Some("d"));
    assert_eq!(args.weights.as_deref(), Some("v"));
    assert_eq!(args.weights_binary.as_deref(), Some("--help"));
    assert!(args.no_bearoff);
}

#[test]
fn wrong_command_lines_are_explained() {
    assert_eq!(parse(&["--help", "--bogus"]).unwrap_err(), usage(LIBRARY));
    assert_eq!(
        parse(&["--no-bearoff", "--weights"]).unwrap_err(),
        format!("--weights requires a value\n{}", usage(LIBRARY))
    );
    assert_eq!(
        parse(&["--bo\"gus", "--help"]).unwrap_err(),
        format!("unknown argument \"--bo\\\"gus\"\n{}", usage(LIBRARY))
    );
}

fn shown(path: &PathPlan) -> String {
    let root = match &path.root {
        PathRoot::Given(text) => text.clone(),
        PathRoot::Environment => "$".to_string(),
        PathRoot::ExeDir => "exe".to_string(),
    };
    path.names.iter().fold(root, |path, name| format!("{path}/{name}"))
}

#[test]
fn files_are_laid_out() {
    let layout = lay_out(&parse(&[]).unwrap(), false, LIBRARY);
    assert_eq!(shown(&layout.library), "exe/libgnubgapi.so");
    assert_eq!(shown(&layout.data_dir), "exe/data");
    assert_eq!(shown(&layout.weights), "exe/data/gnubg.weights");
    assert_eq!(shown(&layout.weights_binary), "exe/data/gnubg.wd");

    let layout = lay_out(&parse(&["--data-dir", "d", "--weights", "w"]).unwrap(), true, LIBRARY);
    assert_eq!(shown(&layout.library), "$");
    assert_eq!(shown(&layout.data_dir), "d");
    assert_eq!(shown(&layout.weights), "w");
    assert_eq!(shown(&layout.weights_binary), "d/gnubg.wd");

    let line = ["--gnubgapi-lib", "l", "--weights-binary", "b"];
    let layout = lay_out(&parse(&line).unwrap(), true, LIBRARY);
    assert_eq!(shown(&layout.library), "l");
    assert_eq!(shown(&layout.weights_binary), "b");
    assert_eq!(shown(&layout.weights), "exe/data/gnubg.weights");
}

#[test]
fn missing_files_are_named() {
    assert!(check_library(true, "l").is_ok());
    assert_eq!(
        check_library(false, "l").unwrap_err(),
        "engine library not found: l (set --gnubgapi-lib or GNUBGAPI_LIB)"
    );
    let sought = |found, path: &str| Sought { found, path: path.to_string() };
    let check = |w, b, d| check_data(&sought(w, "W"), &sought(b, "B"), &sought(d, "D"));
    assert!(check(true, true, true).is_ok());
    assert_eq!(check(false, false, false).unwrap_err(), "weights file not found: W");
    assert_eq!(check(true, false, false).unwrap_err(), "weights binary file not found: B");
    assert_eq!(check(true, true, false).unwrap_err(), "data directory not found: D");
}

#[test]
fn logging_is_switched_on_by_anything_but_off() {
    for on in ["1", "true", "yes", "00", "falsey", " x\t"] {
        assert!(request_logging_enabled(Some(on)), "{on:?}");
    }
    for off in ["", "  ", "0", " 0\n", "false", "FALSE", "\u{2003}False "] {
        assert!(!request_logging_enabled(Some(off)), "{off:?}");
    }
    assert!(!request_logging_enabled(None));
}
