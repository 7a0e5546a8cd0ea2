//! Finding the engine executable and describing the processes to start.
//!
//! Nothing here starts a process: the functions decide which program to run,
//! with which arguments and in which directory, and how its exit code reads.
use vstd::prelude::*;

use crate::error::{Error, ErrorView};
use crate::gdextension_config::{join_path, joined_path, opt_view};

verus! {

/// The values of the two environment variables that may name the engine
/// executable: `godot` and `GODOT`.
#[derive(Debug)]
pub struct GodotEnv {
    pub godot: Option<String>,
    pub godot_upper: Option<String>,
}

/// A process to start: program, arguments in order, and working directory
/// (`None`: the caller's own).
#[derive(Debug)]
pub struct GodotInvocation {
    pub program: String,
    pub args: Vec<String>,
    pub working_dir: Option<String>,
}

/// The mathematical form of a [`GodotInvocation`].
pub struct InvocationView {
    pub program: Seq<char>,
    pub args: Seq<Seq<char>>,
    pub working_dir: Option<Seq<char>>,
}

/// The views of a sequence of strings.
pub open spec fn strings_view(v: Seq<String>) -> Seq<Seq<char>> {
    v.map_values(|s: String| s@)
}

impl View for GodotInvocation {
    type V = InvocationView;

    open spec fn view(&self) -> InvocationView {
        InvocationView {
            program: self.program@,
            args: strings_view(self.args@),
            working_dir: match self.working_dir {
                Some(d) => Some(d@),
                None => None,
            },
        }
    }
}

/// The directories searched when neither variable is set and `PATH` holds
/// no engine executable.
pub open spec fn fallback_dirs() -> Seq<char> {
    "/usr/local/bin:/usr/bin:/bin:/Applications/Godot.app/Contents/MacOS"@
}

/// The fallback directories, `:`-separated.
pub fn fallback_search_paths() -> (r: &'static str)
    ensures
        r@ == fallback_dirs(),
{
    "/usr/local/bin:/usr/bin:/bin:/Applications/Godot.app/Contents/MacOS"
}

/// The message of a failed search, naming every place that was searched.
pub open spec fn not_found_text() -> Seq<char> {
    "Couldn't find the godot binary. Searched in the following locations:\n    - `godot` or `GODOT` environment variables.\n    - `$PATH` locations.\n    - Default search locations (\""@
        + fallback_dirs()
        + "\").\n  Tip: Consider using `gdenv` to manage your godot installations (https://github.com/bytemeadow/gdenv)."@
}

/// The outcome of the search, given what each of its four steps found in
/// order: the `godot` variable, the `GODOT` variable, `PATH`, the fallback
/// directories. The first step that found something wins.
pub open spec fn selected(
    godot: Option<Seq<char>>,
    godot_upper: Option<Seq<char>>,
    on_path: Option<Seq<char>>,
    in_fallback: Option<Seq<char>>,
) -> Result<Seq<char>, ErrorView> {
    match (godot, godot_upper, on_path, in_fallback) {
        (Some(p), _, _, _) => Ok(p),
        (None, Some(p), _, _) => Ok(p),
        (None, None, Some(p), _) => Ok(p),
        (None, None, None, Some(p)) => Ok(p),
        (None, None, None, None) => Err(ErrorView::GodotBinaryNotFound(not_found_text())),
    }
}

/// What holds of a search for the executable in environment `env`, whatever
/// the two searches on disk found: a set variable wins; else the outcome is
/// some path or the not-found error.
pub open spec fn resolved_by(env: &GodotEnv, r: Result<Seq<char>, ErrorView>) -> bool {
    match (opt_view(&env.godot), opt_view(&env.godot_upper)) {
        (Some(p), _) => r == Ok::<Seq<char>, ErrorView>(p),
        (None, Some(p)) => r == Ok::<Seq<char>, ErrorView>(p),
        (None, None) => r is Ok || r == Err::<Seq<char>, ErrorView>(ErrorView::GodotBinaryNotFound(not_found_text())),
    }
}

/// Relies on `which::which(name)`: the first executable called `name` in the
/// directories of `PATH`, if any. What it finds depends on the disk.
#[verifier::external_body]
fn find_on_path(name: &str) -> (r: Option<String>) {
    which::which(name).ok().map(|p| p.to_string_lossy().into_owned())
}

/// Relies on `which::which_in_global(name, Some(dirs))`: the first executable
/// called `name` in the `:`-separated directories `dirs`, if any. What it
/// finds depends on the disk.
#[verifier::external_body]
fn find_in_dirs(name: &str, dirs: &str) -> (r: Option<String>) {
    which::which_in_global(name, Some(dirs)).ok().and_then(|mut found| found.next()).map(
        |p| p.to_string_lossy().into_owned(),
    )
}

/// Picks the engine executable from what the four search steps found.
pub fn select_binary_path(
    godot: Option<String>,
    godot_upper: Option<String>,
    on_path: Option<String>,
    in_fallback: Option<String>,
) -> (r: Result<String, Error>)
    ensures
        match r {
            Ok(p) => selected(opt_view(&godot), opt_view(&godot_upper), opt_view(&on_path), opt_view(&in_fallback))
                == Ok::<Seq<char>, ErrorView>(p@),
            Err(e) => selected(opt_view(&godot), opt_view(&godot_upper), opt_view(&on_path), opt_view(&in_fallback))
                == Err::<Seq<char>, ErrorView>(e@),
        },
{
    match (godot, godot_upper, on_path, in_fallback) {
        (Some(p), _, _, _) => Ok(p),
        (None, Some(p), _, _) => Ok(p),
        (None, None, Some(p), _) => Ok(p),
        (None, None, None, Some(p)) => Ok(p),
        (None, None, None, None) => {
            let mut msg = String::from_str(
                "Couldn't find the godot binary. Searched in the following locations:\n    - `godot` or `GODOT` environment variables.\n    - `$PATH` locations.\n    - Default search locations (\"",
            );
            msg.append(fallback_search_paths());
            msg.append(
                "\").\n  Tip: Consider using `gdenv` to manage your godot installations (https://github.com/bytemeadow/gdenv).",
            );
            Err(Error::GodotBinaryNotFound(msg))
        },
    }
}

/// The view of a search outcome.
pub open spec fn path_result_view(r: &Result<String, Error>) -> Result<Seq<char>, ErrorView> {
    match r {
        Ok(p) => Ok(p@),
        Err(e) => Err(e@),
    }
}

/// Looks for the engine executable: the `godot` variable, then the `GODOT`
/// variable, then `PATH`, then the fallback directories. A step is taken only
/// where the ones before it found nothing.
pub fn godot_binary_path(env: &GodotEnv) -> (r: Result<String, Error>)
    ensures
        resolved_by(env, path_result_view(&r)),
{
    if env.godot.is_some() || env.godot_upper.is_some() {
        return select_binary_path(env.godot.clone(), env.godot_upper.clone(), None, None);
    }
    let on_path = find_on_path("godot");
    if on_path.is_some() {
        return select_binary_path(None, None, on_path, None);
    }
    let in_fallback = find_in_dirs("godot", fallback_search_paths());
    select_binary_path(None, None, None, in_fallback)
}

/// The invocation that runs the executable `binary` with no arguments.
pub open spec fn binary_command(binary: Seq<char>) -> InvocationView {
    InvocationView { program: binary, args: Seq::empty(), working_dir: None }
}

/// The invocation `gdenv run <version>`, which runs that engine version.
pub open spec fn gdenv_command(version: Seq<char>) -> InvocationView {
    InvocationView { program: "gdenv"@, args: seq!["run"@, version], working_dir: None }
}

/// The view of an optional engine version.
pub open spec fn version_view(v: Option<&str>) -> Option<Seq<char>> {
    match v {
        Some(v) => Some(v@),
        None => None,
    }
}

/// What holds of the base invocation for engine version `version` (`None`:
/// the executable that the search finds), whatever the searches found.
pub open spec fn command_resolved(
    version: Option<Seq<char>>,
    env: &GodotEnv,
    r: Result<InvocationView, ErrorView>,
) -> bool {
    match version {
        Some(v) => r == Ok::<InvocationView, ErrorView>(gdenv_command(v)),
        None => match r {
            Ok(c) => c == binary_command(c.program) && resolved_by(env, Ok(c.program)),
            Err(e) => resolved_by(env, Err(e)),
        },
    }
}

/// `base` with `extra` appended to its arguments, run in `project`.
pub open spec fn in_project(base: InvocationView, project: Seq<char>, extra: Seq<Seq<char>>) -> InvocationView {
    InvocationView { program: base.program, args: base.args + extra, working_dir: Some(project) }
}

/// `c` runs, in `project` and with `extra` after its own arguments, the base
/// invocation for engine version `version`.
pub open spec fn runs_in_project(
    version: Option<Seq<char>>,
    env: &GodotEnv,
    c: InvocationView,
    project: Seq<char>,
    extra: Seq<Seq<char>>,
) -> bool {
    exists|base: InvocationView|
        #[trigger] in_project(base, project, extra) == c && command_resolved(version, env, Ok(base))
}

/// The two flags of a headless import run.
pub open spec fn import_flags() -> Seq<Seq<char>> {
    seq!["--import"@, "--headless"@]
}

/// The view of an invocation outcome.
pub open spec fn invocation_result_view(r: &Result<GodotInvocation, Error>) -> Result<InvocationView, ErrorView> {
    match r {
        Ok(c) => Ok(c@),
        Err(e) => Err(e@),
    }
}

/// The invocation that starts the engine: `gdenv run <version>` where a
/// version is given, else the executable that [`godot_binary_path`] finds.
pub fn godot_command(godot_version: Option<&str>, env: &GodotEnv) -> (r: Result<GodotInvocation, Error>)
    ensures
        command_resolved(version_view(godot_version), env, invocation_result_view(&r)),
{
    match godot_version {
        Some(version) => {
            let mut args: Vec<String> = Vec::new();
            args.push(String::from_str("run"));
            args.push(String::from_str(version));
            let c = GodotInvocation { program: String::from_str("gdenv"), args, working_dir: None };
            assert(c@.args =~= seq!["run"@, version@]);
            Ok(c)
        },
        None => match godot_binary_path(env) {
            Ok(binary) => {
                let c = GodotInvocation { program: binary, args: Vec::new(), working_dir: None };
                assert(c@.args =~= Seq::<Seq<char>>::empty());
                Ok(c)
            },
            Err(e) => Err(e),
        },
    }
}

/// Puts `base` to run in `project`, with `extra` after its own arguments.
pub fn in_project_dir(base: GodotInvocation, project: &str, extra: &[String]) -> (r: GodotInvocation)
    ensures
        r@ == in_project(base@, project@, strings_view(extra@)),
{
    let mut args = base.args;
    let ghost start = strings_view(args@);
    let mut i: usize = 0;
    while i < extra.len()
        invariant
            i <= extra@.len(),
            strings_view(args@) =~= start + strings_view(extra@.subrange(0, i as int)),
        decreases extra@.len() - i,
    {
        let ghost before = args@;
        let item = extra[i].clone();
        args.push(item);
        assert(strings_view(args@) =~= strings_view(before).push(extra@[i as int]@));
        assert(extra@.subrange(0, i + 1) =~= extra@.subrange(0, i as int).push(extra@[i as int]));
        assert(strings_view(extra@.subrange(0, i + 1)) =~= strings_view(extra@.subrange(0, i as int)).push(
            extra@[i as int]@,
        ));
        i = i + 1;
    }
    assert(extra@.subrange(0, extra@.len() as int) =~= extra@);
    GodotInvocation { program: base.program, args, working_dir: Some(String::from_str(project)) }
}

/// Runs the base invocation for `godot_version` in `godot_project_path`,
/// with `extra` after its own arguments.
fn command_in_project(
    godot_project_path: &str,
    godot_version: Option<&str>,
    extra: &[String],
    env: &GodotEnv,
) -> (r: Result<GodotInvocation, Error>)
    ensures
        match r {
            Ok(c) => runs_in_project(version_view(godot_version), env, c@, godot_project_path@, strings_view(extra@)),
            Err(e) => command_resolved(version_view(godot_version), env, Err(e@)),
        },
{
    match godot_command(godot_version, env) {
        Ok(base) => {
            let ghost b = base@;
            let c = in_project_dir(base, godot_project_path, extra);
            assert(in_project(b, godot_project_path@, strings_view(extra@)) == c@);
            Ok(c)
        },
        Err(e) => Err(e),
    }
}

/// The headless import run of the engine in `godot_project_path`.
pub fn godot_import_command(
    godot_project_path: &str,
    godot_version: Option<&str>,
    env: &GodotEnv,
) -> (r: Result<GodotInvocation, Error>)
    ensures
        match r {
            Ok(c) => runs_in_project(version_view(godot_version), env, c@, godot_project_path@, import_flags()),
            Err(e) => command_resolved(version_view(godot_version), env, Err(e@)),
        },
{
    let mut flags: Vec<String> = Vec::new();
    flags.push(String::from_str("--import"));
    flags.push(String::from_str("--headless"));
    assert(strings_view(flags@) =~= import_flags());
    command_in_project(godot_project_path, godot_version, flags.as_slice(), env)
}

/// The import run that a project still needs: none where its marker
/// directory `.godot` is present (`marker_present`), else the headless
/// import run of the engine in `godot_project_path`.
pub fn run_godot_import_if_needed(
    godot_project_path: &str,
    godot_version: Option<&str>,
    marker_present: bool,
    env: &GodotEnv,
) -> (r: Result<Option<GodotInvocation>, Error>)
    ensures
        marker_present ==> r matches Ok(None),
        !marker_present ==> match r {
            Ok(Some(c)) => runs_in_project(version_view(godot_version), env, c@, godot_project_path@, import_flags()),
            Ok(None) => false,
            Err(e) => command_resolved(version_view(godot_version), env, Err(e@)),
        },
{
    if marker_present {
        Ok(None)
    } else {
        match godot_import_command(godot_project_path, godot_version, env) {
            Ok(c) => Ok(Some(c)),
            Err(e) => Err(e),
        }
    }
}

/// The marker directory whose presence shows that a project was imported.
pub fn import_marker_path(godot_project_path: &str) -> (r: String)
    ensures
        r@ == joined_path(godot_project_path@, ".godot"@),
{
    join_path(godot_project_path, ".godot")
}

/// How an import run ended, from its exit code (`None`: it had none, as when
/// a signal ended it): only code 0 is success.
pub fn import_outcome(exit_code: Option<i32>) -> (r: Result<(), Error>)
    ensures
        exit_code == Some(0i32) ==> r is Ok,
        exit_code != Some(0i32) ==> (r matches Err(Error::GodotImportFailed(c)) && c == exit_code),
{
    match exit_code {
        Some(0) => Ok(()),
        _ => Err(Error::GodotImportFailed(exit_code)),
    }
}

/// How an engine run ended, from its exit code (`None`: it had none, as when
/// a signal ended it): only code 0 is success.
pub fn exit_outcome(exit_code: Option<i32>) -> (r: Result<(), Error>)
    ensures
        exit_code == Some(0i32) ==> r is Ok,
        exit_code != Some(0i32) ==> (r matches Err(Error::GodotExecFailed(c)) && c == exit_code),
{
    match exit_code {
        Some(0) => Ok(()),
        _ => Err(Error::GodotExecFailed(exit_code)),
    }
}

/// The interactive run of the engine in `godot_project_path` with `args`.
pub fn godot_run_command(
    godot_project_path: &str,
    godot_version: Option<&str>,
    args: &[String],
    env: &GodotEnv,
) -> (r: Result<GodotInvocation, Error>)
    ensures
        match r {
            Ok(c) => runs_in_project(version_view(godot_version), env, c@, godot_project_path@, strings_view(args@)),
            Err(e) => command_resolved(version_view(godot_version), env, Err(e@)),
        },
{
    command_in_project(godot_project_path, godot_version, args, env)
}

} // verus!
