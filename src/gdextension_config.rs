//! Building and rendering the `.gdextension` manifest that tells the engine
//! where to load the compiled library from.
use vstd::prelude::*;

use crate::error::{join_text, Error, ErrorView};

verus! {

/// The text of a boolean as the manifest writes it.
pub open spec fn bool_text(b: bool) -> Seq<char> {
    if b {
        "true"@
    } else {
        "false"@
    }
}

/// The `[configuration]` header followed by the `[libraries]` heading.
pub open spec fn preamble_text(entry_symbol: Seq<char>, version: Seq<char>, reloadable: bool) -> Seq<char> {
    "[configuration]\nentry_symbol = \""@ + entry_symbol + "\"\ncompatibility_minimum = "@ + version
        + "\nreloadable = "@ + bool_text(reloadable) + "\n\n[libraries]\n"@
}

/// One line of the library table: `key "res://<target>/<label>/<file>"`.
pub open spec fn library_line(key: Seq<char>, target: Seq<char>, label: Seq<char>, file: Seq<char>) -> Seq<char> {
    key + "\"res://"@ + target + "/"@ + label + "/"@ + file + "\"\n"@
}

/// Artifact file name on Linux.
pub open spec fn linux_file(name: Seq<char>) -> Seq<char> {
    "lib"@ + name + ".so"@
}

/// Artifact file name on Windows.
pub open spec fn windows_file(name: Seq<char>) -> Seq<char> {
    name + ".dll"@
}

/// Artifact file name on macOS.
pub open spec fn macos_file(name: Seq<char>) -> Seq<char> {
    "lib"@ + name + ".dylib"@
}

/// The four release lines for the variant labelled `label`.
pub open spec fn release_block(target: Seq<char>, label: Seq<char>, name: Seq<char>) -> Seq<char> {
    library_line("linux.release.x86_64 =   "@, target, label, linux_file(name))
        + library_line("windows.release.x86_64 = "@, target, label, windows_file(name))
        + library_line("macos.release =          "@, target, label, macos_file(name))
        + library_line("macos.release.arm64 =    "@, target, label, macos_file(name))
}

/// The four debug lines for the variant labelled `label`.
pub open spec fn debug_block(target: Seq<char>, label: Seq<char>, name: Seq<char>) -> Seq<char> {
    library_line("linux.debug.x86_64 =     "@, target, label, linux_file(name))
        + library_line("windows.debug.x86_64 =   "@, target, label, windows_file(name))
        + library_line("macos.debug =            "@, target, label, macos_file(name))
        + library_line("macos.debug.arm64 =      "@, target, label, macos_file(name))
}

/// The mathematical form of a [`ValidGdExtensionConfig`].
pub struct ValidConfigView {
    pub config_file_name: Seq<char>,
    pub compatability_version: Seq<char>,
    pub entry_symbol: Seq<char>,
    pub reloadable: bool,
    pub release_target: Option<Seq<char>>,
    pub debug_target: Option<Seq<char>>,
    pub godot_project_path: Seq<char>,
    pub relative_target_path: Seq<char>,
    pub library_name: Seq<char>,
}

/// The full text of the manifest for a validated configuration.
pub open spec fn rendered(v: ValidConfigView) -> Seq<char> {
    preamble_text(v.entry_symbol, v.compatability_version, v.reloadable) + match v.release_target {
        Some(label) => release_block(v.relative_target_path, label, v.library_name),
        None => Seq::empty(),
    } + match v.debug_target {
        Some(label) => debug_block(v.relative_target_path, label, v.library_name),
        None => Seq::empty(),
    }
}

/// A validated configuration, ready to be rendered to a `.gdextension` file.
/// Only [`GdExtensionConfig::build`] makes one, and it never changes afterwards.
#[derive(Debug, PartialEq, Eq)]
pub struct ValidGdExtensionConfig {
    config_file_name: String,
    compatability_version: String,
    entry_symbol: String,
    reloadable: bool,
    release_target: Option<String>,
    debug_target: Option<String>,
    godot_project_path: String,
    relative_target_path: String,
    library_name: String,
}

impl ValidGdExtensionConfig {
    /// The relative path is written with forward slashes only.
    #[verifier::type_invariant]
    spec fn wf(&self) -> bool {
        !self.relative_target_path@.contains('\\')
    }
}

impl View for ValidGdExtensionConfig {
    type V = ValidConfigView;

    closed spec fn view(&self) -> ValidConfigView {
        ValidConfigView {
            config_file_name: self.config_file_name@,
            compatability_version: self.compatability_version@,
            entry_symbol: self.entry_symbol@,
            reloadable: self.reloadable,
            release_target: opt_view(&self.release_target),
            debug_target: opt_view(&self.debug_target),
            godot_project_path: self.godot_project_path@,
            relative_target_path: self.relative_target_path@,
            library_name: self.library_name@,
        }
    }
}

/// The view of an optional string.
pub open spec fn opt_view(o: &Option<String>) -> Option<Seq<char>> {
    match o {
        Some(s) => Some(s@),
        None => None,
    }
}

/// Appends `key "res://<target>/<label>/<prefix><name><suffix>"` and a newline.
fn append_library_line(
    out: &mut String,
    key: &str,
    target: &str,
    label: &str,
    prefix: &str,
    name: &str,
    suffix: &str,
)
    ensures
        final(out)@ == old(out)@ + library_line(key@, target@, label@, prefix@ + name@ + suffix@),
{
    out.append(key);
    out.append("\"res://");
    out.append(target);
    out.append("/");
    out.append(label);
    out.append("/");
    out.append(prefix);
    out.append(name);
    out.append(suffix);
    out.append("\"\n");
    assert(final(out)@ =~= old(out)@ + library_line(key@, target@, label@, prefix@ + name@ + suffix@));
}

/// Appends the four lines of one variant; `keys` are the four line keys.
fn append_variant_block(
    out: &mut String,
    keys: (&str, &str, &str, &str),
    target: &str,
    label: &str,
    name: &str,
)
    ensures
        final(out)@ == old(out)@ + library_line(keys.0@, target@, label@, linux_file(name@))
            + library_line(keys.1@, target@, label@, windows_file(name@))
            + library_line(keys.2@, target@, label@, macos_file(name@))
            + library_line(keys.3@, target@, label@, macos_file(name@)),
{
    proof {
        reveal_strlit("");
    }
    assert(""@ + name@ =~= name@);
    append_library_line(out, keys.0, target, label, "lib", name, ".so");
    append_library_line(out, keys.1, target, label, "", name, ".dll");
    append_library_line(out, keys.2, target, label, "lib", name, ".dylib");
    append_library_line(out, keys.3, target, label, "lib", name, ".dylib");
}

/// The configuration header and the `[libraries]` heading.
fn preamble(entry_symbol: &str, version: &str, reloadable: bool) -> (r: String)
    ensures
        r@ == preamble_text(entry_symbol@, version@, reloadable),
{
    let mut out = String::from_str("[configuration]\nentry_symbol = \"");
    out.append(entry_symbol);
    out.append("\"\ncompatibility_minimum = ");
    out.append(version);
    out.append("\nreloadable = ");
    if reloadable {
        out.append("true");
    } else {
        out.append("false");
    }
    out.append("\n\n[libraries]\n");
    assert(out@ =~= preamble_text(entry_symbol@, version@, reloadable));
    out
}

impl ValidGdExtensionConfig {
    /// Generate the `.gdextension` file as a string.
    pub fn create(&self) -> (r: String)
        ensures
            r@ == rendered(self@),
            !self@.relative_target_path.contains('\\'),
    {
        proof {
            use_type_invariant(self);
        }
        let target = self.relative_target_path.as_str();
        let name = self.library_name.as_str();
        let mut out = preamble(self.entry_symbol.as_str(), self.compatability_version.as_str(), self.reloadable);
        let ghost pre = out@;
        if let Some(label) = &self.release_target {
            let keys = ("linux.release.x86_64 =   ", "windows.release.x86_64 = ", "macos.release =          ", "macos.release.arm64 =    ");
            append_variant_block(&mut out, keys, target, label.as_str(), name);
            assert(out@ =~= pre + release_block(target@, label@, name@));
        }
        let ghost mid = out@;
        if let Some(label) = &self.debug_target {
            let keys = ("linux.debug.x86_64 =     ", "windows.debug.x86_64 =   ", "macos.debug =            ", "macos.debug.arm64 =      ");
            append_variant_block(&mut out, keys, target, label.as_str(), name);
            assert(out@ =~= mid + debug_block(target@, label@, name@));
        }
        assert(out@ =~= rendered(self@));
        out
    }
}

/// `s` with every occurrence of `from` replaced by `to`.
pub open spec fn replace_char(s: Seq<char>, from: char, to: char) -> Seq<char> {
    s.map_values(|c: char| if c == from { to } else { c })
}

/// A library identifier with its hyphens turned into underscores.
pub open spec fn underscored(name: Seq<char>) -> Seq<char> {
    replace_char(name, '-', '_')
}

/// A path with every backslash turned into a forward slash.
pub open spec fn forward_slashed(path: Seq<char>) -> Seq<char> {
    replace_char(path, '\\', '/')
}

/// Copies `s`, writing `to` (a one-character string) for every `from`.
fn replace_all(s: &str, from: char, to: &str) -> (r: String)
    requires
        to@.len() == 1,
    ensures
        r@ == replace_char(s@, from, to@[0]),
{
    let n = s.unicode_len();
    let mut out = String::new();
    let mut i: usize = 0;
    while i < n
        invariant
            n == s@.len(),
            i <= n,
            to@.len() == 1,
            out@ =~= replace_char(s@.subrange(0, i as int), from, to@[0]),
        decreases n - i,
    {
        let c = s.get_char(i);
        if c == from {
            out.append(to);
        } else {
            out.append(s.substring_char(i, i + 1));
        }
        assert(s@.subrange(0, i + 1) =~= s@.subrange(0, i as int).push(c));
        i = i + 1;
    }
    assert(s@.subrange(0, n as int) =~= s@);
    out
}

/// Normalizes a library identifier to the artifact naming convention:
/// every `-` becomes `_`.
pub fn normalize_library_name(name: &str) -> (r: String)
    ensures
        r@ == underscored(name@),
{
    proof {
        reveal_strlit("_");
    }
    replace_all(name, '-', "_")
}

/// Rewrites every path separator `\\` to `/`, as `res://` paths require.
pub fn normalize_separators(path: &str) -> (r: String)
    ensures
        r@ == forward_slashed(path@),
{
    proof {
        reveal_strlit("/");
    }
    replace_all(path, '\\', "/")
}

/// `name` inside directory `dir`: one `/` is put between them unless `dir`
/// is empty or already ends with one.
pub open spec fn joined_path(dir: Seq<char>, name: Seq<char>) -> Seq<char> {
    if dir.len() == 0 || dir.last() == '/' {
        dir + name
    } else {
        dir + seq!['/'] + name
    }
}

/// Computes [`joined_path`].
pub fn join_path(dir: &str, name: &str) -> (r: String)
    ensures
        r@ == joined_path(dir@, name@),
{
    proof {
        reveal_strlit("/");
    }
    let n = dir.unicode_len();
    if n == 0 || dir.get_char(n - 1) == '/' {
        join_text(dir, name)
    } else {
        let mut out = String::from_str(dir);
        out.append("/");
        out.append(name);
        assert(out@ =~= joined_path(dir@, name@));
        out
    }
}

/// The relative path from `base` to `path`, as `pathdiff::diff_paths`
/// computes it under the path syntax of the target platform; `None` where no
/// relative path can be expressed.
pub uninterp spec fn relative_path_of(path: Seq<char>, base: Seq<char>) -> Option<Seq<char>>;

/// Relies on `pathdiff::diff_paths(path, base)`: the relative path that leads
/// from `base` to `path`, or `None`. A component that is not valid text cannot
/// arise, as both inputs are text.
#[verifier::external_body]
fn diff_paths(path: &str, base: &str) -> (r: Option<String>)
    ensures
        opt_view(&r) == relative_path_of(path@, base@),
{
    pathdiff::diff_paths(path, base).map(|p| p.to_string_lossy().into_owned())
}

/// Settings for a `.gdextension` file, filled in step by step and then
/// validated by [`GdExtensionConfig::build`].
#[derive(Clone, Debug, PartialEq, Eq)]
pub struct GdExtensionConfig {
    pub config_file_name: String,
    pub compatability_version: String,
    pub entry_symbol: String,
    pub reloadable: bool,
    pub release_target: Option<String>,
    pub debug_target: Option<String>,
    pub target_path: Option<String>,
    pub godot_project_path: Option<String>,
    pub library_name: Option<String>,
}

impl GdExtensionConfig {
    /// The documented defaults of every setting but the two directories and
    /// the library name.
    pub open spec fn has_default_settings(&self) -> bool {
        &&& self.config_file_name@ == "rust.gdextension"@
        &&& self.compatability_version@ == "4.1"@
        &&& self.entry_symbol@ == "gdext_rust_init"@
        &&& self.reloadable
        &&& opt_view(&self.release_target) == Some("release"@)
        &&& opt_view(&self.debug_target) == Some("debug"@)
    }
}

impl GdExtensionConfig {
    /// `self` is what [`GdExtensionConfig::start`] makes of these arguments.
    pub open spec fn started(&self, crate_name: Seq<char>, godot_project_path: Seq<char>, target_directory: Seq<char>) -> bool {
        &&& self.has_default_settings()
        &&& opt_view(&self.library_name) == Some(underscored(crate_name))
        &&& opt_view(&self.target_path) == Some(target_directory)
        &&& opt_view(&self.godot_project_path) == Some(godot_project_path)
    }

    /// A field-by-field copy.
    pub fn duplicate(&self) -> (r: Self)
        ensures
            r == *self,
    {
        GdExtensionConfig {
            config_file_name: self.config_file_name.clone(),
            compatability_version: self.compatability_version.clone(),
            entry_symbol: self.entry_symbol.clone(),
            reloadable: self.reloadable,
            release_target: clone_opt(&self.release_target),
            debug_target: clone_opt(&self.debug_target),
            target_path: clone_opt(&self.target_path),
            godot_project_path: clone_opt(&self.godot_project_path),
            library_name: clone_opt(&self.library_name),
        }
    }
}

impl Default for GdExtensionConfig {
    fn default() -> (r: Self)
        ensures
            r.has_default_settings(),
            r.target_path is None,
            r.godot_project_path is None,
            r.library_name is None,
    {
        GdExtensionConfig {
            config_file_name: String::from_str("rust.gdextension"),
            compatability_version: String::from_str("4.1"),
            entry_symbol: String::from_str("gdext_rust_init"),
            reloadable: true,
            release_target: Some(String::from_str("release")),
            debug_target: Some(String::from_str("debug")),
            target_path: None,
            godot_project_path: None,
            library_name: None,
        }
    }
}

/// The outcome of validation, in terms of views.
pub open spec fn result_view(r: &Result<ValidGdExtensionConfig, Error>) -> Result<ValidConfigView, ErrorView> {
    match r {
        Ok(v) => Ok(v@),
        Err(e) => Err(e@),
    }
}

/// Message for a relative path that cannot be expressed.
pub open spec fn no_relative_path_message(target: Seq<char>, project: Seq<char>) -> Seq<char> {
    "Failed to calculate relative target path: target="@ + target + " -> godot_project="@ + project
}

/// What validation yields once both directories are resolved, given the
/// relative path from `project` to `target` (`None`: there is none).
pub open spec fn validated(
    c: GdExtensionConfig,
    target: Seq<char>,
    project: Seq<char>,
    relative: Option<Seq<char>>,
) -> Result<ValidConfigView, ErrorView> {
    match c.library_name {
        None => Err(ErrorView::MissingField("Missing library name"@)),
        Some(name) => match relative {
            None => Err(ErrorView::PathResolution(no_relative_path_message(target, project))),
            Some(rel) => Ok(
                ValidConfigView {
                    config_file_name: c.config_file_name@,
                    compatability_version: c.compatability_version@,
                    entry_symbol: c.entry_symbol@,
                    reloadable: c.reloadable,
                    release_target: opt_view(&c.release_target),
                    debug_target: opt_view(&c.debug_target),
                    godot_project_path: project,
                    relative_target_path: forward_slashed(rel),
                    library_name: name@,
                },
            ),
        },
    }
}

/// What validation yields, given the resolved (absolute) forms of the two
/// configured directories (`None`: that directory could not be resolved).
pub open spec fn built(
    c: GdExtensionConfig,
    resolved_target: Option<Seq<char>>,
    resolved_project: Option<Seq<char>>,
) -> Result<ValidConfigView, ErrorView> {
    match c.target_path {
        None => Err(ErrorView::MissingField("Missing target path"@)),
        Some(t) => match resolved_target {
            None => Err(ErrorView::PathResolution("Failed to canonicalize target path: "@ + t@)),
            Some(target) => match c.godot_project_path {
                None => Err(ErrorView::MissingField("Missing godot project path"@)),
                Some(p) => match resolved_project {
                    None => Err(ErrorView::PathResolution("Failed to canonicalize godot project path: "@ + p@)),
                    Some(project) => validated(c, target, project, relative_path_of(target, project)),
                },
            },
        },
    }
}

proof fn lemma_forward_slashed_has_no_backslash(path: Seq<char>)
    ensures
        !forward_slashed(path).contains('\\'),
{
}

fn clone_opt(o: &Option<String>) -> (r: Option<String>)
    ensures
        r == *o,
{
    match o {
        Some(s) => Some(s.clone()),
        None => None,
    }
}

impl GdExtensionConfig {
    /// Start from the defaults with the given library name and directories.
    /// Hyphens in `crate_name` become underscores, as artifact names have them.
    pub fn start(crate_name: &str, godot_project_path: &str, target_directory: &str) -> (r: Self)
        ensures
            r.started(crate_name@, godot_project_path@, target_directory@),
    {
        GdExtensionConfig {
            library_name: Some(normalize_library_name(crate_name)),
            target_path: Some(String::from_str(target_directory)),
            godot_project_path: Some(String::from_str(godot_project_path)),
            ..Self::default()
        }
    }

    /// Validate the configuration, given the absolute forms of its target
    /// directory and its project directory as the caller resolved them on disk
    /// (`None` where a directory could not be resolved).
    pub fn build(&self, resolved_target: Option<String>, resolved_project: Option<String>) -> (r: Result<
        ValidGdExtensionConfig,
        Error,
    >)
        ensures
            result_view(&r) == built(*self, opt_view(&resolved_target), opt_view(&resolved_project)),
    {
        let t = match &self.target_path {
            None => { return Err(Error::MissingField(String::from_str("Missing target path"))); },
            Some(t) => t,
        };
        let target = match resolved_target {
            None => {
                return Err(
                    Error::PathResolution(join_text("Failed to canonicalize target path: ", t.as_str())),
                );
            },
            Some(target) => target,
        };
        let p = match &self.godot_project_path {
            None => { return Err(Error::MissingField(String::from_str("Missing godot project path"))); },
            Some(p) => p,
        };
        let project = match resolved_project {
            None => {
                return Err(
                    Error::PathResolution(
                        join_text("Failed to canonicalize godot project path: ", p.as_str()),
                    ),
                );
            },
            Some(project) => project,
        };
        let relative = diff_paths(target.as_str(), project.as_str());
        self.build_with_relative_path(target, project, relative)
    }

    /// The last step of [`GdExtensionConfig::build`]: validation with both
    /// directories resolved and `relative` the path from `project` to `target`.
    pub fn build_with_relative_path(&self, target: String, project: String, relative: Option<String>) -> (r: Result<
        ValidGdExtensionConfig,
        Error,
    >)
        ensures
            result_view(&r) == validated(*self, target@, project@, opt_view(&relative)),
    {
        let name = match &self.library_name {
            None => { return Err(Error::MissingField(String::from_str("Missing library name"))); },
            Some(name) => name,
        };
        match relative {
            None => {
                let mut msg = join_text("Failed to calculate relative target path: target=", target.as_str());
                msg.append(" -> godot_project=");
                msg.append(project.as_str());
                Err(Error::PathResolution(msg))
            },
            Some(rel) => {
                let relative_target_path = normalize_separators(rel.as_str());
                proof {
                    lemma_forward_slashed_has_no_backslash(rel@);
                }
                Ok(
                    ValidGdExtensionConfig {
                        config_file_name: self.config_file_name.clone(),
                        compatability_version: self.compatability_version.clone(),
                        entry_symbol: self.entry_symbol.clone(),
                        reloadable: self.reloadable,
                        release_target: clone_opt(&self.release_target),
                        debug_target: clone_opt(&self.debug_target),
                        godot_project_path: project,
                        relative_target_path,
                        library_name: name.clone(),
                    },
                )
            },
        }
    }

    /// Set the release variant label; `None` leaves the release lines out.
    pub fn release_target(self, name: Option<String>) -> (r: Self)
        ensures
            r == (GdExtensionConfig { release_target: name, ..self }),
    {
        GdExtensionConfig { release_target: name, ..self }
    }

    /// Set the debug variant label; `None` leaves the debug lines out.
    pub fn debug_target(self, name: Option<String>) -> (r: Self)
        ensures
            r == (GdExtensionConfig { debug_target: name, ..self }),
    {
        GdExtensionConfig { debug_target: name, ..self }
    }

    /// Set the minimum compatible engine version. The default is `4.1`.
    pub fn compatability_version(self, version: &str) -> (r: Self)
        ensures
            r.compatability_version@ == version@,
            r == (GdExtensionConfig { compatability_version: r.compatability_version, ..self }),
    {
        GdExtensionConfig { compatability_version: String::from_str(version), ..self }
    }

    /// Set the entry symbol. The default is `gdext_rust_init`.
    pub fn entry_symbol(self, symbol: &str) -> (r: Self)
        ensures
            r.entry_symbol@ == symbol@,
            r == (GdExtensionConfig { entry_symbol: r.entry_symbol, ..self }),
    {
        GdExtensionConfig { entry_symbol: String::from_str(symbol), ..self }
    }

    /// Set the file name of the manifest. The default is `rust.gdextension`.
    pub fn config_file_name(self, name: &str) -> (r: Self)
        ensures
            r.config_file_name@ == name@,
            r == (GdExtensionConfig { config_file_name: r.config_file_name, ..self }),
    {
        GdExtensionConfig { config_file_name: String::from_str(name), ..self }
    }

    /// Set whether the library is hot reloadable. The default is `true`.
    pub fn reloadable(self, reloadable: bool) -> (r: Self)
        ensures
            r == (GdExtensionConfig { reloadable, ..self }),
    {
        GdExtensionConfig { reloadable, ..self }
    }
}

impl ValidGdExtensionConfig {
    /// Where the manifest goes: the file name inside the project directory.
    pub fn full_config_path(&self) -> (r: String)
        ensures
            r@ == joined_path(self@.godot_project_path, self@.config_file_name),
    {
        join_path(self.godot_project_path.as_str(), self.config_file_name.as_str())
    }
}

/// Rendering is a function of the configuration alone: two renderings of
/// the same validated configuration are the same text.
pub proof fn lemma_render_deterministic(a: &ValidGdExtensionConfig, b: &ValidGdExtensionConfig)
    requires
        a@ == b@,
    ensures
        rendered(a@) == rendered(b@),
{
}

/// For every pair of directories, the relative path that validation embeds
/// in the manifest holds no backslash.
pub proof fn lemma_built_path_has_no_backslash(
    c: GdExtensionConfig,
    resolved_target: Option<Seq<char>>,
    resolved_project: Option<Seq<char>>,
)
    ensures
        built(c, resolved_target, resolved_project) matches Ok(v) ==> !v.relative_target_path.contains('\\'),
{
    if let Ok(v) = built(c, resolved_target, resolved_project) {
        let rel = relative_path_of(resolved_target->Some_0, resolved_project->Some_0)->Some_0;
        lemma_forward_slashed_has_no_backslash(rel);
    }
}

proof fn lemma_concat_no_backslash(a: Seq<char>, b: Seq<char>)
    requires
        !a.contains('\\'),
        !b.contains('\\'),
    ensures
        !(a + b).contains('\\'),
{
    if (a + b).contains('\\') {
        let i = choose|i: int| 0 <= i < (a + b).len() && (a + b)[i] == '\\';
        if i < a.len() {
            assert(a[i] == '\\');
        } else {
            assert(b[i - a.len()] == '\\');
        }
    }
}

proof fn lemma_line_no_backslash(key: Seq<char>, target: Seq<char>, label: Seq<char>, file: Seq<char>)
    requires
        !key.contains('\\'),
        !target.contains('\\'),
        !label.contains('\\'),
        !file.contains('\\'),
    ensures
        !library_line(key, target, label, file).contains('\\'),
{
    reveal_strlit("\"res://");
    reveal_strlit("/");
    reveal_strlit("\"\n");
    lemma_concat_no_backslash(key, "\"res://"@);
    lemma_concat_no_backslash(key + "\"res://"@, target);
    lemma_concat_no_backslash(key + "\"res://"@ + target, "/"@);
    lemma_concat_no_backslash(key + "\"res://"@ + target + "/"@, label);
    lemma_concat_no_backslash(key + "\"res://"@ + target + "/"@ + label, "/"@);
    lemma_concat_no_backslash(key + "\"res://"@ + target + "/"@ + label + "/"@, file);
    lemma_concat_no_backslash(key + "\"res://"@ + target + "/"@ + label + "/"@ + file, "\"\n"@);
}

proof fn lemma_files_no_backslash(name: Seq<char>)
    requires
        !name.contains('\\'),
    ensures
        !linux_file(name).contains('\\'),
        !windows_file(name).contains('\\'),
        !macos_file(name).contains('\\'),
{
    reveal_strlit("lib");
    reveal_strlit(".so");
    reveal_strlit(".dll");
    reveal_strlit(".dylib");
    lemma_concat_no_backslash("lib"@, name);
    lemma_concat_no_backslash("lib"@ + name, ".so"@);
    lemma_concat_no_backslash(name, ".dll"@);
    lemma_concat_no_backslash("lib"@ + name, ".dylib"@);
}

proof fn lemma_preamble_no_backslash(entry_symbol: Seq<char>, version: Seq<char>, reloadable: bool)
    requires
        !entry_symbol.contains('\\'),
        !version.contains('\\'),
    ensures
        !preamble_text(entry_symbol, version, reloadable).contains('\\'),
{
    reveal_strlit("[configuration]\nentry_symbol = \"");
    reveal_strlit("\"\ncompatibility_minimum = ");
    reveal_strlit("\nreloadable = ");
    reveal_strlit("true");
    reveal_strlit("false");
    reveal_strlit("\n\n[libraries]\n");
    let p1 = "[configuration]\nentry_symbol = \""@;
    lemma_concat_no_backslash(p1, entry_symbol);
    lemma_concat_no_backslash(p1 + entry_symbol, "\"\ncompatibility_minimum = "@);
    let p2 = p1 + entry_symbol + "\"\ncompatibility_minimum = "@;
    lemma_concat_no_backslash(p2, version);
    lemma_concat_no_backslash(p2 + version, "\nreloadable = "@);
    lemma_concat_no_backslash(p2 + version + "\nreloadable = "@, bool_text(reloadable));
    lemma_concat_no_backslash(p2 + version + "\nreloadable = "@ + bool_text(reloadable), "\n\n[libraries]\n"@);
}

proof fn lemma_blocks_no_backslash(target: Seq<char>, label: Seq<char>, name: Seq<char>)
    requires
        !target.contains('\\'),
        !label.contains('\\'),
        !name.contains('\\'),
    ensures
        !release_block(target, label, name).contains('\\'),
        !debug_block(target, label, name).contains('\\'),
{
    lemma_files_no_backslash(name);
    reveal_strlit("linux.release.x86_64 =   ");
    reveal_strlit("windows.release.x86_64 = ");
    reveal_strlit("macos.release =          ");
    reveal_strlit("macos.release.arm64 =    ");
    reveal_strlit("linux.debug.x86_64 =     ");
    reveal_strlit("windows.debug.x86_64 =   ");
    reveal_strlit("macos.debug =            ");
    reveal_strlit("macos.debug.arm64 =      ");
    let l1 = library_line("linux.release.x86_64 =   "@, target, label, linux_file(name));
    let l2 = library_line("windows.release.x86_64 = "@, target, label, windows_file(name));
    let l3 = library_line("macos.release =          "@, target, label, macos_file(name));
    let l4 = library_line("macos.release.arm64 =    "@, target, label, macos_file(name));
    lemma_line_no_backslash("linux.release.x86_64 =   "@, target, label, linux_file(name));
    lemma_line_no_backslash("windows.release.x86_64 = "@, target, label, windows_file(name));
    lemma_line_no_backslash("macos.release =          "@, target, label, macos_file(name));
    lemma_line_no_backslash("macos.release.arm64 =    "@, target, label, macos_file(name));
    lemma_concat_no_backslash(l1, l2);
    lemma_concat_no_backslash(l1 + l2, l3);
    lemma_concat_no_backslash(l1 + l2 + l3, l4);
    let d1 = library_line("linux.debug.x86_64 =     "@, target, label, linux_file(name));
    let d2 = library_line("windows.debug.x86_64 =   "@, target, label, windows_file(name));
    let d3 = library_line("macos.debug =            "@, target, label, macos_file(name));
    let d4 = library_line("macos.debug.arm64 =      "@, target, label, macos_file(name));
    lemma_line_no_backslash("linux.debug.x86_64 =     "@, target, label, linux_file(name));
    lemma_line_no_backslash("windows.debug.x86_64 =   "@, target, label, windows_file(name));
    lemma_line_no_backslash("macos.debug =            "@, target, label, macos_file(name));
    lemma_line_no_backslash("macos.debug.arm64 =      "@, target, label, macos_file(name));
    lemma_concat_no_backslash(d1, d2);
    lemma_concat_no_backslash(d1 + d2, d3);
    lemma_concat_no_backslash(d1 + d2 + d3, d4);
}

/// The rendered manifest holds no backslash where none of the configured
/// texts holds one; the relative path never does (see
/// [`lemma_built_path_has_no_backslash`]).
pub proof fn lemma_rendered_has_no_backslash(v: ValidConfigView)
    requires
        !v.entry_symbol.contains('\\'),
        !v.compatability_version.contains('\\'),
        !v.library_name.contains('\\'),
        !v.relative_target_path.contains('\\'),
        v.release_target matches Some(l) ==> !l.contains('\\'),
        v.debug_target matches Some(l) ==> !l.contains('\\'),
    ensures
        !rendered(v).contains('\\'),
{
    let pre = preamble_text(v.entry_symbol, v.compatability_version, v.reloadable);
    lemma_preamble_no_backslash(v.entry_symbol, v.compatability_version, v.reloadable);
    let rel: Seq<char> = match v.release_target {
        Some(label) => release_block(v.relative_target_path, label, v.library_name),
        None => Seq::empty(),
    };
    let dbg: Seq<char> = match v.debug_target {
        Some(label) => debug_block(v.relative_target_path, label, v.library_name),
        None => Seq::empty(),
    };
    if let Some(label) = v.release_target {
        lemma_blocks_no_backslash(v.relative_target_path, label, v.library_name);
    }
    if let Some(label) = v.debug_target {
        lemma_blocks_no_backslash(v.relative_target_path, label, v.library_name);
    }
    lemma_concat_no_backslash(pre, rel);
    lemma_concat_no_backslash(pre + rel, dbg);
}

/// Without a debug label no debug line is rendered; without either label the
/// library table is empty and the configuration header stands alone.
pub proof fn lemma_absent_variants_omitted(v: ValidConfigView)
    ensures
        v.debug_target is None ==> rendered(v) == preamble_text(v.entry_symbol, v.compatability_version, v.reloadable)
            + match v.release_target {
            Some(label) => release_block(v.relative_target_path, label, v.library_name),
            None => Seq::empty(),
        },
        v.debug_target is None && v.release_target is None ==> rendered(v) == preamble_text(
            v.entry_symbol,
            v.compatability_version,
            v.reloadable,
        ),
{
    let pre = preamble_text(v.entry_symbol, v.compatability_version, v.reloadable);
    assert(pre + Seq::<char>::empty() =~= pre);
    if let Some(label) = v.release_target {
        let rel = release_block(v.relative_target_path, label, v.library_name);
        assert(pre + rel + Seq::<char>::empty() =~= pre + rel);
    }
}

/// Normalizing a library name leaves no hyphen, a second normalization
/// changes nothing, and a name without hyphens is kept as it is.
pub proof fn lemma_name_normalization(name: Seq<char>)
    ensures
        !underscored(name).contains('-'),
        underscored(underscored(name)) == underscored(name),
        !name.contains('-') ==> underscored(name) == name,
{
    assert(underscored(underscored(name)) =~= underscored(name));
    if !name.contains('-') {
        assert forall|i: int| 0 <= i < name.len() implies underscored(name)[i] == name[i] by {
            if name[i] == '-' {
                assert(name.contains('-'));
            }
        }
        assert(underscored(name) =~= name);
    }
}

} // verus!
