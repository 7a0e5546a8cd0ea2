//! Prepares and launches the Godot engine for a Rust GDExtension library:
//! writes the `.gdextension` manifest, imports the project once, then runs
//! the engine in the project directory.
pub mod error;
pub mod gdextension_config;
pub mod godot_commands;

pub use error::{Error, ErrorView};
pub use gdextension_config::{GdExtensionConfig, ValidGdExtensionConfig};
pub use godot_commands::{GodotEnv, GodotInvocation};

use vstd::prelude::*;

use crate::error::join_text;
use crate::godot_commands::{exit_outcome, strings_view, InvocationView};

verus! {

/// Settings of one launch of the engine.
#[derive(Debug)]
pub struct GodotRunner {
    pub crate_name: String,
    pub godot_project_path: String,
    pub cargo_manifest_path: String,
    pub gdextension_config: Option<GdExtensionConfig>,
    pub write_gdextension_config: bool,
    pub pre_import: bool,
    pub godot_cli_arguments: Vec<String>,
}

/// Copies a sequence of string slices into owned strings.
fn owned_strings(items: Vec<&str>) -> (r: Vec<String>)
    ensures
        strings_view(r@) == items@.map_values(|s: &str| s@),
{
    let mut out: Vec<String> = Vec::new();
    let mut i: usize = 0;
    while i < items.len()
        invariant
            i <= items@.len(),
            strings_view(out@) =~= items@.subrange(0, i as int).map_values(|s: &str| s@),
        decreases items@.len() - i,
    {
        let ghost before = out@;
        out.push(String::from_str(items[i]));
        assert(strings_view(out@) =~= strings_view(before).push(items@[i as int]@));
        assert(items@.subrange(0, i + 1) =~= items@.subrange(0, i as int).push(items@[i as int]));
        assert(items@.subrange(0, i + 1).map_values(|s: &str| s@) =~= items@.subrange(0, i as int).map_values(
            |s: &str| s@,
        ).push(items@[i as int]@));
        i = i + 1;
    }
    assert(items@.subrange(0, items@.len() as int) =~= items@);
    out
}

impl GodotRunner {
    /// A runner for library `crate_name` and the project in
    /// `godot_project_path`, with the defaults: manifest `./Cargo.toml`, the
    /// `.gdextension` file written from the defaults, import when needed, and
    /// no extra engine arguments.
    pub fn create(crate_name: &str, godot_project_path: &str) -> (r: Self)
        ensures
            r.crate_name@ == crate_name@,
            r.godot_project_path@ == godot_project_path@,
            r.cargo_manifest_path@ == "./Cargo.toml"@,
            r.gdextension_config is None,
            r.write_gdextension_config,
            r.pre_import,
            r.godot_cli_arguments@.len() == 0,
    {
        GodotRunner {
            crate_name: String::from_str(crate_name),
            godot_project_path: String::from_str(godot_project_path),
            cargo_manifest_path: String::from_str("./Cargo.toml"),
            gdextension_config: None,
            write_gdextension_config: true,
            pre_import: true,
            godot_cli_arguments: Vec::new(),
        }
    }

    /// Set the path of the cargo manifest. The default is `./Cargo.toml`.
    pub fn cargo_manifest_path(self, cargo_manifest_path: &str) -> (r: Self)
        ensures
            r.cargo_manifest_path@ == cargo_manifest_path@,
            r == (GodotRunner { cargo_manifest_path: r.cargo_manifest_path, ..self }),
    {
        GodotRunner { cargo_manifest_path: String::from_str(cargo_manifest_path), ..self }
    }

    /// Set whether the `.gdextension` file is written before the launch.
    /// The default is `true`.
    pub fn write_gdextension_config(self, write_gdextension_config: bool) -> (r: Self)
        ensures
            r == (GodotRunner { write_gdextension_config, ..self }),
    {
        GodotRunner { write_gdextension_config, ..self }
    }

    /// Use `config` for the `.gdextension` file in place of the defaults.
    pub fn gdextension_config(self, config: GdExtensionConfig) -> (r: Self)
        ensures
            r == (GodotRunner { gdextension_config: Some(config), ..self }),
    {
        GodotRunner { gdextension_config: Some(config), ..self }
    }

    /// Set whether `godot --import --headless` runs first where the project
    /// has no `.godot` directory. The default is `true`.
    pub fn pre_import(self, pre_import: bool) -> (r: Self)
        ensures
            r == (GodotRunner { pre_import, ..self }),
    {
        GodotRunner { pre_import, ..self }
    }

    /// Set the extra arguments handed to the engine, in order.
    pub fn godot_cli_arguments(self, args: Vec<&str>) -> (r: Self)
        ensures
            strings_view(r.godot_cli_arguments@) == args@.map_values(|s: &str| s@),
            r == (GodotRunner { godot_cli_arguments: r.godot_cli_arguments, ..self }),
    {
        GodotRunner { godot_cli_arguments: owned_strings(args), ..self }
    }
}

/// Where a launch stands: which outside step it waits on.
#[derive(Clone, Copy, Debug, PartialEq, Eq, Structural)]
pub enum RunPhase {
    /// Waits for the project directory to be resolved.
    Configured,
    /// Waits for the engine executable to be found.
    ResolvingBinary,
    /// Waits for the build's target directory.
    ReadingTargetDirectory,
    /// Waits for the `.gdextension` file to be written.
    WritingConfig,
    /// Waits for the import run, where one was needed.
    Importing,
    /// Waits for the engine to exit.
    Running,
    /// Done; the last action held the outcome.
    Finished,
}

/// The state of a launch: its phase, the resolved project directory and the
/// engine executable, each set once known.
#[derive(Debug)]
pub struct RunState {
    pub phase: RunPhase,
    pub project: String,
    pub binary: String,
}

/// What an outside step reports back.
#[derive(Debug)]
pub enum RunEvent {
    /// The absolute form of the project directory, `None` where it could not
    /// be resolved.
    ProjectResolved(Option<String>),
    /// The engine executable, as `godot_commands::godot_binary_path` found it.
    BinaryResolved(Result<String, Error>),
    /// The build's target directory, read from the cargo manifest.
    TargetDirectoryRead(Result<String, Error>),
    /// The `.gdextension` file was validated and written, or not.
    ConfigWritten(Result<(), Error>),
    /// The import step ended.
    ImportFinished(Result<(), Error>),
    /// The engine exited with this code (`None`: it had none).
    Exited(Option<i32>),
}

/// The outside step to take next.
#[derive(Debug)]
pub enum RunAction {
    /// Resolve this directory to its absolute form.
    ResolveProject(String),
    /// Look for the engine executable.
    ResolveBinary,
    /// Read the build's target directory from this cargo manifest.
    ReadTargetDirectory(String),
    /// Resolve the directories of this configuration, validate it and write
    /// the file.
    WriteConfig(GdExtensionConfig),
    /// Import the project in this directory unless its marker is present.
    ImportIfNeeded(String),
    /// Start this process and wait for it.
    Launch(GodotInvocation),
    /// The launch is over, with this outcome.
    Finish(Result<(), Error>),
}

/// `state` is in `phase` with these project and executable paths.
pub open spec fn state_is(state: &RunState, phase: RunPhase, project: Seq<char>, binary: Seq<char>) -> bool {
    state.phase == phase && state.project@ == project && state.binary@ == binary
}

/// `action` ends the launch with an error whose view is `e`.
pub open spec fn finishes_with_error(state: &RunState, action: &RunAction, e: ErrorView) -> bool {
    &&& state.phase == RunPhase::Finished
    &&& action matches RunAction::Finish(Err(err))
    &&& err@ == e
}

/// The message for an event that the current phase does not wait on.
pub open spec fn unexpected_event_text() -> Seq<char> {
    "the event does not match the step the launch is waiting on"@
}

impl GodotRunner {
    /// The engine run itself: the executable in the project directory with
    /// the configured arguments.
    pub open spec fn launch_of(&self, project: Seq<char>, binary: Seq<char>) -> InvocationView {
        InvocationView {
            program: binary,
            args: strings_view(self.godot_cli_arguments@),
            working_dir: Some(project),
        }
    }

    /// The step after the `.gdextension` file: the import where it is
    /// enabled, else the launch.
    pub open spec fn after_config(
        &self,
        project: Seq<char>,
        binary: Seq<char>,
        state: &RunState,
        action: &RunAction,
    ) -> bool {
        if self.pre_import {
            state_is(state, RunPhase::Importing, project, binary) && (action matches RunAction::ImportIfNeeded(p)
                && p@ == project)
        } else {
            self.launches(project, binary, state, action)
        }
    }

    /// The launch of the engine.
    pub open spec fn launches(&self, project: Seq<char>, binary: Seq<char>, state: &RunState, action: &RunAction) -> bool {
        state_is(state, RunPhase::Running, project, binary) && (action matches RunAction::Launch(c) && c@
            == self.launch_of(project, binary))
    }

    /// The step after the executable was found: the `.gdextension` file where
    /// it is enabled (from the override, or from the target directory that
    /// must be read first), else what follows it.
    pub open spec fn after_binary(
        &self,
        project: Seq<char>,
        binary: Seq<char>,
        state: &RunState,
        action: &RunAction,
    ) -> bool {
        if !self.write_gdextension_config {
            self.after_config(project, binary, state, action)
        } else {
            match self.gdextension_config {
                Some(c) => state_is(state, RunPhase::WritingConfig, project, binary)
                    && action == RunAction::WriteConfig(c),
                None => state_is(state, RunPhase::ReadingTargetDirectory, project, binary)
                    && (action matches RunAction::ReadTargetDirectory(m) && m@ == self.cargo_manifest_path@),
            }
        }
    }

    /// The transition of a launch from `state` on `event` to `next`, taking
    /// `action`. An event that the phase does not wait on ends the launch.
    pub open spec fn steps_to(&self, state: &RunState, event: &RunEvent, next: &RunState, action: &RunAction) -> bool {
        let project = state.project@;
        let binary = state.binary@;
        match (state.phase, event) {
            (RunPhase::Configured, RunEvent::ProjectResolved(None)) => finishes_with_error(
                next,
                action,
                ErrorView::PathResolution("Failed to canonicalize godot project path: "@ + self.godot_project_path@),
            ),
            (RunPhase::Configured, RunEvent::ProjectResolved(Some(p))) => state_is(
                next,
                RunPhase::ResolvingBinary,
                p@,
                binary,
            ) && *action == RunAction::ResolveBinary,
            (RunPhase::ResolvingBinary, RunEvent::BinaryResolved(Err(e))) => finishes_with_error(next, action, e@),
            (RunPhase::ResolvingBinary, RunEvent::BinaryResolved(Ok(b))) => self.after_binary(project, b@, next, action),
            (RunPhase::ReadingTargetDirectory, RunEvent::TargetDirectoryRead(Err(e))) => finishes_with_error(
                next,
                action,
                e@,
            ),
            (RunPhase::ReadingTargetDirectory, RunEvent::TargetDirectoryRead(Ok(t))) => state_is(
                next,
                RunPhase::WritingConfig,
                project,
                binary,
            ) && (action matches RunAction::WriteConfig(c) && c.started(self.crate_name@, self.godot_project_path@, t@)),
            (RunPhase::WritingConfig, RunEvent::ConfigWritten(Err(e))) => finishes_with_error(next, action, e@),
            (RunPhase::WritingConfig, RunEvent::ConfigWritten(Ok(()))) => self.after_config(project, binary, next, action),
            (RunPhase::Importing, RunEvent::ImportFinished(Err(e))) => finishes_with_error(next, action, e@),
            (RunPhase::Importing, RunEvent::ImportFinished(Ok(()))) => self.launches(project, binary, next, action),
            (RunPhase::Running, RunEvent::Exited(code)) => {
                &&& next.phase == RunPhase::Finished
                &&& action matches RunAction::Finish(r)
                &&& (*code == Some(0i32) ==> r is Ok)
                &&& (*code != Some(0i32) ==> (r matches Err(Error::GodotExecFailed(c)) && c == *code))
            },
            _ => finishes_with_error(next, action, ErrorView::InvalidGodotRunConfig(unexpected_event_text())),
        }
    }
}

/// Copies a list of strings.
fn clone_strings(v: &Vec<String>) -> (r: Vec<String>)
    ensures
        r@ == v@,
{
    let mut out: Vec<String> = Vec::new();
    let mut i: usize = 0;
    while i < v.len()
        invariant
            i <= v@.len(),
            out@ =~= v@.subrange(0, i as int),
        decreases v@.len() - i,
    {
        out.push(v[i].clone());
        i = i + 1;
    }
    out
}

fn finished(error: Error) -> (r: (RunState, RunAction))
    ensures
        finishes_with_error(&r.0, &r.1, error@),
{
    let state = RunState { phase: RunPhase::Finished, project: String::new(), binary: String::new() };
    (state, RunAction::Finish(Err(error)))
}

impl GodotRunner {
    /// The first state of a launch, and its first action: resolve the
    /// configured project directory.
    pub fn start_run(&self) -> (r: (RunState, RunAction))
        ensures
            r.0.phase == RunPhase::Configured,
            r.1 matches RunAction::ResolveProject(p) && p@ == self.godot_project_path@,
    {
        let state = RunState { phase: RunPhase::Configured, project: String::new(), binary: String::new() };
        (state, RunAction::ResolveProject(self.godot_project_path.clone()))
    }

    fn launch(&self, project: String, binary: String) -> (r: (RunState, RunAction))
        ensures
            self.launches(project@, binary@, &r.0, &r.1),
    {
        let c = GodotInvocation {
            program: binary.clone(),
            args: clone_strings(&self.godot_cli_arguments),
            working_dir: Some(project.clone()),
        };
        (RunState { phase: RunPhase::Running, project, binary }, RunAction::Launch(c))
    }

    fn config_done(&self, project: String, binary: String) -> (r: (RunState, RunAction))
        ensures
            self.after_config(project@, binary@, &r.0, &r.1),
    {
        if self.pre_import {
            let p = project.clone();
            (RunState { phase: RunPhase::Importing, project, binary }, RunAction::ImportIfNeeded(p))
        } else {
            self.launch(project, binary)
        }
    }

    fn binary_found(&self, project: String, binary: String) -> (r: (RunState, RunAction))
        ensures
            self.after_binary(project@, binary@, &r.0, &r.1),
    {
        if !self.write_gdextension_config {
            self.config_done(project, binary)
        } else {
            match &self.gdextension_config {
                Some(c) => (
                    RunState { phase: RunPhase::WritingConfig, project, binary },
                    RunAction::WriteConfig(c.duplicate()),
                ),
                None => (
                    RunState { phase: RunPhase::ReadingTargetDirectory, project, binary },
                    RunAction::ReadTargetDirectory(self.cargo_manifest_path.clone()),
                ),
            }
        }
    }

    /// Advances a launch by one outside step: from `state` and what that step
    /// reported, the next state and the next action. Every failure ends the
    /// launch at once; nothing is retried.
    pub fn step(&self, state: RunState, event: RunEvent) -> (r: (RunState, RunAction))
        ensures
            self.steps_to(&state, &event, &r.0, &r.1),
    {
        let ghost old_state = state;
        let ghost old_event = event;
        let RunState { phase, project, binary } = state;
        match (phase, event) {
            (RunPhase::Configured, RunEvent::ProjectResolved(None)) => finished(
                Error::PathResolution(
                    join_text("Failed to canonicalize godot project path: ", self.godot_project_path.as_str()),
                ),
            ),
            (RunPhase::Configured, RunEvent::ProjectResolved(Some(p))) => (
                RunState { phase: RunPhase::ResolvingBinary, project: p, binary },
                RunAction::ResolveBinary,
            ),
            (RunPhase::ResolvingBinary, RunEvent::BinaryResolved(Err(e))) => finished(e),
            (RunPhase::ResolvingBinary, RunEvent::BinaryResolved(Ok(b))) => self.binary_found(project, b),
            (RunPhase::ReadingTargetDirectory, RunEvent::TargetDirectoryRead(Err(e))) => finished(e),
            (RunPhase::ReadingTargetDirectory, RunEvent::TargetDirectoryRead(Ok(t))) => {
                let c = GdExtensionConfig::start(
                    self.crate_name.as_str(),
                    self.godot_project_path.as_str(),
                    t.as_str(),
                );
                (RunState { phase: RunPhase::WritingConfig, project, binary }, RunAction::WriteConfig(c))
            },
            (RunPhase::WritingConfig, RunEvent::ConfigWritten(Err(e))) => finished(e),
            (RunPhase::WritingConfig, RunEvent::ConfigWritten(Ok(()))) => self.config_done(project, binary),
            (RunPhase::Importing, RunEvent::ImportFinished(Err(e))) => finished(e),
            (RunPhase::Importing, RunEvent::ImportFinished(Ok(()))) => self.launch(project, binary),
            (RunPhase::Running, RunEvent::Exited(code)) => (
                RunState { phase: RunPhase::Finished, project, binary },
                RunAction::Finish(exit_outcome(code)),
            ),
            _ => finished(
                Error::InvalidGodotRunConfig(
                    String::from_str("the event does not match the step the launch is waiting on"),
                ),
            ),
        }
    }
}

} // verus!
