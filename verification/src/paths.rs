//! File-system locations of the application's configuration, as text.
use vstd::prelude::*;

verus! {

/// Calls `dirs::config_dir` (the platform's per-user configuration directory) and gives it
/// as text, with any part that is not valid UTF-8 replaced as `to_string_lossy` does. The
/// directory is never empty (an absolute path, or a component such as `.config` joined
/// under the home directory); which directory it is depends on the platform and the
/// environment and is not said.
#[verifier::external_body]
fn platform_config_dir() -> (d: Option<String>)
    ensures
        d matches Some(x) ==> x@.len() > 0,
{
    match dirs::config_dir() {
        Some(p) => Some(p.to_string_lossy().into_owned()),
        None => None,
    }
}

/// Gives `std::path::MAIN_SEPARATOR`, the platform's path separator: `\` on Windows, `/`
/// elsewhere.
#[verifier::external_body]
fn main_separator() -> (c: char)
    ensures
        c == '/' || c == '\\',
{
    std::path::MAIN_SEPARATOR
}

/// Calls `Path::exists` on the path `p`. Nothing is said of the result, which depends on
/// the disk.
#[verifier::external_body]
pub(crate) fn path_exists(p: &str) -> (b: bool) {
    std::path::Path::new(p).exists()
}

/// Whether `c` separates path components on a platform whose separator is `sep`.
pub open spec fn is_separator(c: char, sep: char) -> bool {
    c == '/' || c == sep
}

/// The path `name` (one relative component) under `base`, as `PathBuf::join` forms it:
/// a separator is put between them unless `base` is empty or already ends with one.
pub open spec fn spec_join(base: Seq<char>, name: Seq<char>, sep: char) -> Seq<char> {
    if base.len() == 0 || is_separator(base.last(), sep) {
        base + name
    } else {
        base.push(sep) + name
    }
}

/// The path `dir`, then each of `names` below it in turn.
pub open spec fn join_all(dir: Seq<char>, names: Seq<Seq<char>>, sep: char) -> Seq<char>
    decreases names.len(),
{
    if names.len() == 0 {
        dir
    } else {
        join_all(spec_join(dir, names[0], sep), names.drop_first(), sep)
    }
}

/// Whether `p` is the path `names[0]/names[1]/...` inside the application's configuration
/// directory: `airtype` inside a non-empty base directory (the platform's configuration
/// directory, or `.` where it has none), with the platform's separator `/` or `\`.
pub open spec fn in_app_dir(p: Seq<char>, names: Seq<Seq<char>>) -> bool {
    exists|base: Seq<char>, sep: char|
        base.len() > 0 && (sep == '/' || sep == '\\') && p == #[trigger] join_all(
            spec_join(base, APP_NAME@, sep),
            names,
            sep,
        )
}

/// The path `name` under `base`, with `sep` as the platform's separator.
pub fn join_path(base: &str, name: &str, sep: char) -> (p: String)
    ensures
        p@ == spec_join(base@, name@, sep),
{
    let cs = crate::text::chars_of(base);
    let mut p = base.to_owned();
    if cs.len() == 0 || cs[cs.len() - 1] == '/' || cs[cs.len() - 1] == sep {
        p.append(name);
    } else {
        crate::text::push_char(&mut p, sep);
        p.append(name);
    }
    p
}

/// The application's name, which its configuration directory is called after.
pub const APP_NAME: &'static str = "airtype";

/// The configuration directory under `base` (the working directory when there is none).
pub fn config_dir_in(base: Option<&str>, sep: char) -> (p: String)
    ensures
        p@ == spec_join(
            match base {
                Some(b) => b@,
                None => "."@,
            },
            APP_NAME@,
            sep,
        ),
{
    match base {
        Some(b) => join_path(b, APP_NAME, sep),
        None => join_path(".", APP_NAME, sep),
    }
}

/// `airtype` under the platform's configuration directory, or under `.` when the platform
/// has none, with `sep` as the separator.
fn app_dir(sep: char) -> (p: String)
    ensures
        exists|base: Seq<char>| base.len() > 0 && p@ == #[trigger] spec_join(base, APP_NAME@, sep),
{
    let base = platform_config_dir();
    proof {
        reveal_strlit(".");
    }
    match &base {
        Some(b) => {
            let p = config_dir_in(Some(b.as_str()), sep);
            assert(p@ == spec_join(b@, APP_NAME@, sep));
            p
        },
        None => {
            let p = config_dir_in(None, sep);
            assert(p@ == spec_join("."@, APP_NAME@, sep));
            p
        },
    }
}

/// The path `name` inside the application's configuration directory.
fn app_path(sep: char, name: &str) -> (p: String)
    ensures
        exists|base: Seq<char>|
            base.len() > 0 && p@ == #[trigger] spec_join(spec_join(base, APP_NAME@, sep), name@, sep),
{
    let dir = app_dir(sep);
    let ghost base = choose|base: Seq<char>| base.len() > 0 && dir@ == #[trigger] spec_join(base, APP_NAME@, sep);
    let p = join_path(dir.as_str(), name, sep);
    assert(p@ == spec_join(spec_join(base, APP_NAME@, sep), name@, sep));
    p
}

/// The application's configuration directory: `airtype` under the platform's configuration
/// directory (`~/.config` on Linux, `~/Library/Application Support` on macOS, `%APPDATA%`
/// on Windows), or under the working directory when the platform has none.
pub fn config_dir() -> (p: String)
    ensures
        in_app_dir(p@, Seq::<Seq<char>>::empty()),
{
    let sep = main_separator();
    let p = app_dir(sep);
    let ghost base = choose|base: Seq<char>| base.len() > 0 && p@ == #[trigger] spec_join(base, APP_NAME@, sep);
    assert(p@ == join_all(spec_join(base, APP_NAME@, sep), Seq::<Seq<char>>::empty(), sep));
    p
}

/// The path `name` inside the application's configuration directory.
pub fn in_config_dir(name: &str) -> (p: String)
    ensures
        in_app_dir(p@, seq![name@]),
{
    let sep = main_separator();
    let p = app_path(sep, name);
    let ghost base = choose|base: Seq<char>|
        base.len() > 0 && p@ == #[trigger] spec_join(spec_join(base, APP_NAME@, sep), name@, sep);
    proof {
        reveal_with_fuel(join_all, 2);
        assert(seq![name@].drop_first() =~= Seq::<Seq<char>>::empty());
    }
    assert(p@ == join_all(spec_join(base, APP_NAME@, sep), seq![name@], sep));
    p
}

/// The directory that speech models are kept in: `models` inside the configuration
/// directory.
pub fn models_dir() -> (p: String)
    ensures
        in_app_dir(p@, seq!["models"@]),
{
    in_config_dir("models")
}

/// The settings file: `settings.json` in the configuration directory.
pub fn settings_path() -> (p: String)
    ensures
        in_app_dir(p@, seq!["settings.json"@]),
{
    in_config_dir("settings.json")
}

/// The history file: `history.json` in the configuration directory.
pub fn history_path() -> (p: String)
    ensures
        in_app_dir(p@, seq!["history.json"@]),
{
    in_config_dir("history.json")
}

/// The path `name` in the models directory.
pub fn in_models_dir(name: &str) -> (p: String)
    ensures
        in_app_dir(p@, seq!["models"@, name@]),
{
    let sep = main_separator();
    let dir = app_path(sep, "models");
    let ghost base = choose|base: Seq<char>|
        base.len() > 0 && dir@ == #[trigger] spec_join(spec_join(base, APP_NAME@, sep), "models"@, sep);
    let p = join_path(dir.as_str(), name, sep);
    proof {
        reveal_with_fuel(join_all, 3);
        let names = seq!["models"@, name@];
        assert(names.drop_first() =~= seq![name@]);
        assert(names.drop_first().drop_first() =~= Seq::<Seq<char>>::empty());
    }
    assert(p@ == join_all(spec_join(base, APP_NAME@, sep), seq!["models"@, name@], sep));
    p
}

} // verus!
