use vstd::prelude::*;

use crate::strutil::string_views;

verus! {

/// The file extensions the detector is asked to inspect.
pub open spec fn detector_extensions() -> Seq<Seq<char>> {
    seq![
        "py"@,
        "js"@,
        "ts"@,
        "java"@,
        "cs"@,
        "go"@,
        "rs"@,
        "rb"@,
        "php"@,
        "kt"@,
        "swift"@,
        "dart"@,
        "zig"@,
        "c"@,
        "cpp"@,
        "h"@,
        "hpp"@,
        "html"@,
        "css"@,
        "scss"@,
        "jsx"@,
        "tsx"@,
        "sh"@,
        "ps1"@,
        "sql"@,
        "r"@,
        "pl"@,
        "lua"@,
    ]
}

/// The file extensions the detector is asked to inspect, as owned strings
/// ready to be handed to the external command.
pub fn supported_extensions() -> (r: Vec<String>)
    ensures
        string_views(r@) == detector_extensions(),
{
    let mut r: Vec<String> = Vec::new();
    r.push("py".to_owned());
    r.push("js".to_owned());
    r.push("ts".to_owned());
    r.push("java".to_owned());
    r.push("cs".to_owned());
    r.push("go".to_owned());
    r.push("rs".to_owned());
    r.push("rb".to_owned());
    r.push("php".to_owned());
    r.push("kt".to_owned());
    r.push("swift".to_owned());
    r.push("dart".to_owned());
    r.push("zig".to_owned());
    r.push("c".to_owned());
    r.push("cpp".to_owned());
    r.push("h".to_owned());
    r.push("hpp".to_owned());
    r.push("html".to_owned());
    r.push("css".to_owned());
    r.push("scss".to_owned());
    r.push("jsx".to_owned());
    r.push("tsx".to_owned());
    r.push("sh".to_owned());
    r.push("ps1".to_owned());
    r.push("sql".to_owned());
    r.push("r".to_owned());
    r.push("pl".to_owned());
    r.push("lua".to_owned());
    proof {
        assert(string_views(r@) =~= detector_extensions());
    }
    r
}

/// Decide whether the external detector should run at all: with an empty
/// set of comparison directories it must not be invoked, and the outcome
/// of the check is a manual review.
pub fn should_run_detector(ref_dirs: &Vec<String>) -> (r: bool)
    ensures
        r == (ref_dirs@.len() > 0),
{
    ref_dirs.len() > 0
}

} // verus!
