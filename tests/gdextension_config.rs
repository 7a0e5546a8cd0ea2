use cargo_godot_lib::gdextension_config::{
    join_path, normalize_library_name, normalize_separators, GdExtensionConfig,
    ValidGdExtensionConfig,
};
use cargo_godot_lib::Error;

const PROJECT: &str = "/home/user/projects/godot_project_path";
const TARGET: &str = "/home/user/.cache/cargo/target";

/// Validates `config`, whose directories are already absolute.
fn build(config: &GdExtensionConfig) -> Result<ValidGdExtensionConfig, Error> {
    config.build(config.target_path.clone(), config.godot_project_path.clone())
}

fn start() -> GdExtensionConfig {
    GdExtensionConfig::start("test_library", PROJECT, TARGET)
}

const HEADER: &str = r#"
[configuration]
entry_symbol = "gdext_rust_init"
compatibility_minimum = 4.1
reloadable = true

[libraries]
"#;

const RELEASE_LINES: &str = r#"linux.release.x86_64 =   "res://../../.cache/cargo/target/release/libtest_library.so"
windows.release.x86_64 = "res://../../.cache/cargo/target/release/test_library.dll"
macos.release =          "res://../../.cache/cargo/target/release/libtest_library.dylib"
macos.release.arm64 =    "res://../../.cache/cargo/target/release/libtest_library.dylib"
"#;

const DEBUG_LINES: &str = r#"linux.debug.x86_64 =     "res://../../.cache/cargo/target/debug/libtest_library.so"
windows.debug.x86_64 =   "res://../../.cache/cargo/target/debug/test_library.dll"
macos.debug =            "res://../../.cache/cargo/target/debug/libtest_library.dylib"
macos.debug.arm64 =      "res://../../.cache/cargo/target/debug/libtest_library.dylib"
"#;

#[test]
fn gdextension_config_test_create() {
    let config = build(&start()).expect("Successful build");
    let file_string = config.create();

    assert!(!file_string.contains('\\'));
    assert_eq!(
        file_string,
        r#"
[configuration]
entry_symbol = "gdext_rust_init"
compatibility_minimum = 4.1
reloadable = true

[libraries]
linux.release.x86_64 =   "res://../../.cache/cargo/target/release/libtest_library.so"
windows.release.x86_64 = "res://../../.cache/cargo/target/release/test_library.dll"
macos.release =          "res://../../.cache/cargo/target/release/libtest_library.dylib"
macos.release.arm64 =    "res://../../.cache/cargo/target/release/libtest_library.dylib"
linux.debug.x86_64 =     "res://../../.cache/cargo/target/debug/libtest_library.so"
windows.debug.x86_64 =   "res://../../.cache/cargo/target/debug/test_library.dll"
macos.debug =            "res://../../.cache/cargo/target/debug/libtest_library.dylib"
macos.debug.arm64 =      "res://../../.cache/cargo/target/debug/libtest_library.dylib"
"#
        .trim_start()
        .to_string()
    );
}

#[test]
fn test_create_release_only() {
    let config = start()
        .release_target(Some("release".to_string()))
        .debug_target(None);
    let config = build(&config).expect("Successful build");
    let file_string = config.create();

    assert!(!file_string.contains('\\'));
    assert_eq!(
        file_string,
        r#"
[configuration]
entry_symbol = "gdext_rust_init"
compatibility_minimum = 4.1
reloadable = true

[libraries]
linux.release.x86_64 =   "res://../../.cache/cargo/target/release/libtest_library.so"
windows.release.x86_64 = "res://../../.cache/cargo/target/release/test_library.dll"
macos.release =          "res://../../.cache/cargo/target/release/libtest_library.dylib"
macos.release.arm64 =    "res://../../.cache/cargo/target/release/libtest_library.dylib"
"#
        .trim_start()
        .to_string()
    );
}

#[test]
fn test_create_debug_only() {
    let config = start()
        .release_target(None)
        .debug_target(Some("debug".to_string()));
    let config = build(&config).expect("Successful build");
    let file_string = config.create();

    assert!(!file_string.contains('\\'));
    assert_eq!(
        file_string,
        r#"
[configuration]
entry_symbol = "gdext_rust_init"
compatibility_minimum = 4.1
reloadable = true

[libraries]
linux.debug.x86_64 =     "res://../../.cache/cargo/target/debug/libtest_library.so"
windows.debug.x86_64 =   "res://../../.cache/cargo/target/debug/test_library.dll"
macos.debug =            "res://../../.cache/cargo/target/debug/libtest_library.dylib"
macos.debug.arm64 =      "res://../../.cache/cargo/target/debug/libtest_library.dylib"
"#
        .trim_start()
        .to_string()
    );
}

#[test]
fn test_entry_symbol() {
    let config = start().entry_symbol("custom_entry_point");
    let config = build(&config).expect("Successful build");
    let file_string = config.create();

    assert!(!file_string.contains('\\'));
    assert_eq!(
        file_string,
        r#"
[configuration]
entry_symbol = "custom_entry_point"
compatibility_minimum = 4.1
reloadable = true

[libraries]
linux.release.x86_64 =   "res://../../.cache/cargo/target/release/libtest_library.so"
windows.release.x86_64 = "res://../../.cache/cargo/target/release/test_library.dll"
macos.release =          "res://../../.cache/cargo/target/release/libtest_library.dylib"
macos.release.arm64 =    "res://../../.cache/cargo/target/release/libtest_library.dylib"
linux.debug.x86_64 =     "res://../../.cache/cargo/target/debug/libtest_library.so"
windows.debug.x86_64 =   "res://../../.cache/cargo/target/debug/test_library.dll"
macos.debug =            "res://../../.cache/cargo/target/debug/libtest_library.dylib"
macos.debug.arm64 =      "res://../../.cache/cargo/target/debug/libtest_library.dylib"
"#
        .trim_start()
        .to_string()
    );
}

#[test]
fn rendering_twice_gives_the_same_text() {
    let config = build(&start()).expect("Successful build");
    assert_eq!(config.create(), config.create());
}

#[test]
fn entry_symbol_changes_only_its_line() {
    let plain = build(&start()).unwrap().create();
    let custom = build(&start().entry_symbol("custom_entry_point"))
        .unwrap()
        .create();
    let plain_lines: Vec<&str> = plain.lines().collect();
    let custom_lines: Vec<&str> = custom.lines().collect();
    assert_eq!(plain_lines.len(), custom_lines.len());
    let differing: Vec<usize> =
        (0..plain_lines.len()).filter(|&i| plain_lines[i] != custom_lines[i]).collect();
    assert_eq!(differing, vec![1]);
    assert_eq!(custom_lines[1], "entry_symbol = \"custom_entry_point\"");
}

#[test]
fn both_variants_absent_leaves_only_the_header() {
    let config = start().release_target(None).debug_target(None);
    let text = build(&config).unwrap().create();
    assert_eq!(text, HEADER.trim_start());
}

#[test]
fn default_output_has_header_and_eight_library_lines() {
    let text = build(&start()).unwrap().create();
    assert_eq!(text, format!("{}{}{}", HEADER.trim_start(), RELEASE_LINES, DEBUG_LINES));
    let library_lines = text.lines().filter(|l| l.contains("\"res://")).count();
    assert_eq!(library_lines, 8);
}

#[test]
fn settings_are_rendered() {
    let config = start()
        .compatability_version("4.3")
        .reloadable(false)
        .release_target(Some("fast".to_string()))
        .debug_target(None);
    let text = build(&config).unwrap().create();
    assert_eq!(
        text,
        "[configuration]\nentry_symbol = \"gdext_rust_init\"\ncompatibility_minimum = 4.3\nreloadable = false\n\n[libraries]\n\
linux.release.x86_64 =   \"res://../../.cache/cargo/target/fast/libtest_library.so\"\n\
windows.release.x86_64 = \"res://../../.cache/cargo/target/fast/test_library.dll\"\n\
macos.release =          \"res://../../.cache/cargo/target/fast/libtest_library.dylib\"\n\
macos.release.arm64 =    \"res://../../.cache/cargo/target/fast/libtest_library.dylib\"\n"
    );
}

#[test]
fn defaults_are_documented_ones() {
    let config = GdExtensionConfig::default();
    assert_eq!(config.config_file_name, "rust.gdextension");
    assert_eq!(config.compatability_version, "4.1");
    assert_eq!(config.entry_symbol, "gdext_rust_init");
    assert!(config.reloadable);
    assert_eq!(config.release_target.as_deref(), Some("release"));
    assert_eq!(config.debug_target.as_deref(), Some("debug"));
    assert!(config.target_path.is_none());
    assert!(config.godot_project_path.is_none());
    assert!(config.library_name.is_none());
}

#[test]
fn start_normalizes_hyphens_once() {
    let config = GdExtensionConfig::start("my-cool-crate", "p", "t");
    assert_eq!(config.library_name.as_deref(), Some("my_cool_crate"));
    assert_eq!(config.godot_project_path.as_deref(), Some("p"));
    assert_eq!(config.target_path.as_deref(), Some("t"));
    let once = normalize_library_name("my-cool-crate");
    assert_eq!(normalize_library_name(&once), once);
    assert_eq!(normalize_library_name("plain_name"), "plain_name");
    assert_eq!(normalize_library_name(""), "");
}

#[test]
fn separators_become_forward_slashes() {
    assert_eq!(normalize_separators("..\\..\\target\\x"), "../../target/x");
    assert_eq!(normalize_separators("a/b"), "a/b");
}

#[test]
fn relative_path_is_computed_between_directories() {
    let config = GdExtensionConfig::start("lib", "/a/x", "/a/b/c");
    let valid = config
        .build(Some("/a/b/c".to_string()), Some("/a/x".to_string()))
        .unwrap();
    assert!(valid.create().contains("\"res://../b/c/release/liblib.so\""));
    assert_eq!(valid.full_config_path(), "/a/x/rust.gdextension");
}

#[test]
fn full_config_path_joins_project_and_file_name() {
    let config = build(&start().config_file_name("my.gdextension")).unwrap();
    assert_eq!(
        config.full_config_path(),
        "/home/user/projects/godot_project_path/my.gdextension"
    );
    assert_eq!(join_path("dir/", "f"), "dir/f");
    assert_eq!(join_path("", "f"), "f");
    assert_eq!(join_path("dir", "f"), "dir/f");
}

#[test]
fn disjoint_paths_fail_validation() {
    let config = GdExtensionConfig::start("lib", "/project", "target");
    let result = config.build(Some("relative/target".to_string()), Some("/project".to_string()));
    match result {
        Err(Error::PathResolution(msg)) => assert_eq!(
            msg,
            "Failed to calculate relative target path: target=relative/target -> godot_project=/project"
        ),
        other => panic!("unexpected: {:?}", other),
    }
    let result = config.build_with_relative_path("/t".to_string(), "/p".to_string(), None);
    assert!(matches!(result, Err(Error::PathResolution(_))));
}

#[test]
fn missing_and_unresolved_fields_are_reported() {
    let mut config = GdExtensionConfig::start("lib", "/project", "/target");
    let r = config.build(None, Some("/project".to_string()));
    assert!(matches!(r, Err(Error::PathResolution(m)) if m == "Failed to canonicalize target path: /target"));
    let r = config.build(Some("/target".to_string()), None);
    assert!(
        matches!(r, Err(Error::PathResolution(m)) if m == "Failed to canonicalize godot project path: /project")
    );
    config.library_name = None;
    let r = config.build(Some("/target".to_string()), Some("/project".to_string()));
    assert!(matches!(r, Err(Error::MissingField(m)) if m == "Missing library name"));
    config.godot_project_path = None;
    let r = config.build(Some("/target".to_string()), Some("/project".to_string()));
    assert!(matches!(r, Err(Error::MissingField(m)) if m == "Missing godot project path"));
    let r = GdExtensionConfig::default().build(None, None);
    assert!(matches!(r, Err(Error::MissingField(m)) if m == "Missing target path"));
}
