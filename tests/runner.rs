use cargo_godot_lib::godot_commands::{
    exit_outcome, godot_binary_path, godot_command, godot_import_command, godot_run_command,
    import_marker_path, import_outcome, run_godot_import_if_needed, select_binary_path,
};
use cargo_godot_lib::{
    Error, GdExtensionConfig, GodotEnv, GodotRunner, RunAction, RunEvent, RunPhase,
};
use std::path::{Path, PathBuf};
use tempfile::tempdir;

fn no_env() -> GodotEnv {
    GodotEnv { godot: None, godot_upper: None }
}

#[test]
fn lib_test_create() {
    let crate_name = "my_crate";
    let godot_project_path = PathBuf::from("godot_project");
    let runner = GodotRunner::create(crate_name, godot_project_path.to_str().unwrap());

    assert_eq!(runner.crate_name, crate_name);
    assert_eq!(PathBuf::from(&runner.godot_project_path), godot_project_path);
    assert_eq!(PathBuf::from(&runner.cargo_manifest_path), PathBuf::from("./Cargo.toml"));
    assert!(runner.gdextension_config.is_none());
    assert!(runner.write_gdextension_config);
    assert!(runner.pre_import);
    assert!(runner.godot_cli_arguments.is_empty());
}

#[test]
fn test_builder_methods() {
    let runner = GodotRunner::create("a", "b")
        .cargo_manifest_path("custom/Cargo.toml")
        .write_gdextension_config(false)
        .gdextension_config(GdExtensionConfig::default())
        .pre_import(false)
        .godot_cli_arguments(vec!["--hello", "world"]);

    assert_eq!(
        PathBuf::from(&runner.cargo_manifest_path),
        PathBuf::from("custom/Cargo.toml")
    );
    assert!(!runner.write_gdextension_config);
    assert!(runner.gdextension_config.is_some());
    assert!(!runner.pre_import);
    assert_eq!(runner.godot_cli_arguments, vec!["--hello", "world"]);
}

#[test]
fn test_gdextension_config_builder() {
    let dir = tempdir().unwrap();
    let godot_project_path = dir.path();
    let project = godot_project_path.to_str().unwrap();

    let config = GdExtensionConfig::start("my_crate", project, Path::new("target").to_str().unwrap());
    let runner = GodotRunner::create("my_crate", project).gdextension_config(config);

    assert!(runner.gdextension_config.is_some());
}

#[test]
fn binary_search_precedence() {
    let s = |v: &str| Some(v.to_string());
    assert_eq!(select_binary_path(s("a"), s("b"), s("c"), s("d")).unwrap(), "a");
    assert_eq!(select_binary_path(None, s("b"), s("c"), s("d")).unwrap(), "b");
    assert_eq!(select_binary_path(None, None, s("c"), s("d")).unwrap(), "c");
    assert_eq!(select_binary_path(None, None, None, s("d")).unwrap(), "d");
    match select_binary_path(None, None, None, None) {
        Err(Error::GodotBinaryNotFound(msg)) => {
            assert!(msg.contains("`godot` or `GODOT` environment variables"));
            assert!(msg.contains("`$PATH` locations"));
            assert!(msg.contains("/usr/local/bin:/usr/bin:/bin:/Applications/Godot.app/Contents/MacOS"));
        }
        other => panic!("unexpected: {:?}", other),
    }
}

#[test]
fn environment_overrides_win() {
    let env = GodotEnv { godot: Some("/opt/godot".to_string()), godot_upper: Some("/x".to_string()) };
    assert_eq!(godot_binary_path(&env).unwrap(), "/opt/godot");
    let env = GodotEnv { godot: None, godot_upper: Some("/opt/GODOT".to_string()) };
    assert_eq!(godot_binary_path(&env).unwrap(), "/opt/GODOT");
}

#[test]
fn version_runs_through_gdenv() {
    let c = godot_command(Some("4.2"), &no_env()).unwrap();
    assert_eq!(c.program, "gdenv");
    assert_eq!(c.args, vec!["run", "4.2"]);
    assert!(c.working_dir.is_none());
    let c = godot_import_command("/proj", Some("4.2"), &no_env()).unwrap();
    assert_eq!(c.args, vec!["run", "4.2", "--import", "--headless"]);
    assert_eq!(c.working_dir.as_deref(), Some("/proj"));
}

#[test]
fn run_command_appends_arguments() {
    let env = GodotEnv { godot: Some("/bin/godot".to_string()), godot_upper: None };
    let args = vec!["--quit-after".to_string(), "1".to_string()];
    let c = godot_run_command("/proj", None, &args, &env).unwrap();
    assert_eq!(c.program, "/bin/godot");
    assert_eq!(c.args, args);
    assert_eq!(c.working_dir.as_deref(), Some("/proj"));
}

#[test]
fn import_is_skipped_when_marker_present() {
    let env = GodotEnv { godot: Some("/bin/godot".to_string()), godot_upper: None };
    assert!(matches!(run_godot_import_if_needed("/proj", None, true, &env), Ok(None)));
    assert!(matches!(run_godot_import_if_needed("/proj", None, true, &env), Ok(None)));
    let c = run_godot_import_if_needed("/proj", None, false, &env).unwrap().unwrap();
    assert_eq!(c.program, "/bin/godot");
    assert_eq!(c.args, vec!["--import", "--headless"]);
    assert_eq!(c.working_dir.as_deref(), Some("/proj"));
    assert_eq!(import_marker_path("/proj"), "/proj/.godot");
}

#[test]
fn exit_codes_are_classified() {
    assert!(import_outcome(Some(0)).is_ok());
    assert!(matches!(import_outcome(Some(3)), Err(Error::GodotImportFailed(Some(3)))));
    assert!(matches!(import_outcome(None), Err(Error::GodotImportFailed(None))));
    assert!(exit_outcome(Some(0)).is_ok());
    assert!(matches!(exit_outcome(Some(1)), Err(Error::GodotExecFailed(Some(1)))));
    assert!(matches!(exit_outcome(None), Err(Error::GodotExecFailed(None))));
}

#[test]
fn full_run_writes_imports_then_launches() {
    let runner = GodotRunner::create("my-crate", "godot").godot_cli_arguments(vec!["--headless"]);
    let (state, action) = runner.start_run();
    assert!(matches!(&action, RunAction::ResolveProject(p) if p == "godot"));
    let (state, action) = runner.step(state, RunEvent::ProjectResolved(Some("/abs/godot".to_string())));
    assert!(matches!(action, RunAction::ResolveBinary));
    let (state, action) = runner.step(state, RunEvent::BinaryResolved(Ok("/bin/godot".to_string())));
    assert!(matches!(&action, RunAction::ReadTargetDirectory(m) if m == "./Cargo.toml"));
    let (state, action) = runner.step(state, RunEvent::TargetDirectoryRead(Ok("/abs/target".to_string())));
    match &action {
        RunAction::WriteConfig(c) => {
            assert_eq!(c.library_name.as_deref(), Some("my_crate"));
            assert_eq!(c.target_path.as_deref(), Some("/abs/target"));
            assert_eq!(c.godot_project_path.as_deref(), Some("godot"));
        }
        other => panic!("unexpected: {:?}", other),
    }
    let (state, action) = runner.step(state, RunEvent::ConfigWritten(Ok(())));
    assert!(matches!(&action, RunAction::ImportIfNeeded(p) if p == "/abs/godot"));
    let (state, action) = runner.step(state, RunEvent::ImportFinished(Ok(())));
    match &action {
        RunAction::Launch(c) => {
            assert_eq!(c.program, "/bin/godot");
            assert_eq!(c.args, vec!["--headless"]);
            assert_eq!(c.working_dir.as_deref(), Some("/abs/godot"));
        }
        other => panic!("unexpected: {:?}", other),
    }
    let (state, action) = runner.step(state, RunEvent::Exited(Some(0)));
    assert_eq!(state.phase, RunPhase::Finished);
    assert!(matches!(action, RunAction::Finish(Ok(()))));
}

#[test]
fn run_stops_at_first_failure() {
    let runner = GodotRunner::create("c", "missing");
    let (state, _) = runner.start_run();
    let (state, action) = runner.step(state, RunEvent::ProjectResolved(None));
    assert_eq!(state.phase, RunPhase::Finished);
    match action {
        RunAction::Finish(Err(Error::PathResolution(m))) => {
            assert_eq!(m, "Failed to canonicalize godot project path: missing")
        }
        other => panic!("unexpected: {:?}", other),
    }

    let runner = GodotRunner::create("c", "p").write_gdextension_config(false).pre_import(false);
    let (state, _) = runner.start_run();
    let (state, _) = runner.step(state, RunEvent::ProjectResolved(Some("/p".to_string())));
    let (state, action) = runner.step(state, RunEvent::BinaryResolved(Ok("/g".to_string())));
    assert!(matches!(action, RunAction::Launch(_)));
    let (_, action) = runner.step(state, RunEvent::Exited(None));
    assert!(matches!(action, RunAction::Finish(Err(Error::GodotExecFailed(None)))));
}

#[test]
fn override_config_is_written_without_metadata() {
    let config = GdExtensionConfig::default().entry_symbol("x");
    let runner = GodotRunner::create("c", "p").gdextension_config(config.clone());
    let (state, _) = runner.start_run();
    let (state, _) = runner.step(state, RunEvent::ProjectResolved(Some("/p".to_string())));
    let (state, action) = runner.step(state, RunEvent::BinaryResolved(Ok("/g".to_string())));
    assert_eq!(state.phase, RunPhase::WritingConfig);
    assert!(matches!(action, RunAction::WriteConfig(c) if c == config));
    let (state, action) = runner.step(state, RunEvent::ConfigWritten(Err(Error::Io("disk full".to_string()))));
    assert_eq!(state.phase, RunPhase::Finished);
    assert!(matches!(action, RunAction::Finish(Err(Error::Io(_)))));
    let (_, action) = runner.step(state, RunEvent::Exited(Some(0)));
    assert!(matches!(action, RunAction::Finish(Err(Error::InvalidGodotRunConfig(_)))));
}
