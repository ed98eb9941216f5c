//! Capture: assembles a `Version` from what the build's commands printed and
//! from the build environment, and the re-run hints for the build driver.
use vstd::prelude::*;
use vstd::string::*;
use crate::text::{
    join_comma, join_path, join_with_comma, output_line, path_join, remove_all, remove_all_of,
    single_line, starts_with, views,
};
use crate::version::{pair_views, Version, VersionView};

verus! {

/// What a command printed on its standard output, and whether it exited with
/// success.
pub struct CommandOutput {
    pub success: bool,
    pub stdout: String,
}

/// The commands that the capture runs.
#[derive(Debug, Clone, Copy, PartialEq, Eq, Structural)]
pub enum Command {
    /// `git describe --abbrev=40 --always --exclude='*'`
    GitDescribe,
    /// `git --no-pager show -s --format=%ci`
    GitShow,
    /// `git status --porcelain -u --no-column`
    GitStatus,
    /// `rustc -vV`
    Rustc,
    /// `touch build.rs`
    Touch,
    /// `git rev-parse --show-toplevel`
    GitToplevel,
    /// `git rev-parse --git-dir`
    GitDir,
}

/// Why no record could be captured.
#[derive(Debug, Clone, Copy, PartialEq, Eq, Structural)]
pub enum CaptureError {
    /// The command exited with failure.
    CommandFailed(Command),
    /// The command's output was not of the expected shape.
    UnexpectedOutput(Command),
    /// The build profile is not set.
    MissingProfile,
    /// The compiler's version report could not be read.
    BadRustcVersion,
    /// The compiler reported no LLVM version.
    MissingLlvmVersion,
    /// The compiler reported no commit hash.
    MissingCommitHash,
}

/// The one line that a command printed, or why there is none.
pub open spec fn command_line(out: CommandOutput, cmd: Command) -> Result<Seq<char>, CaptureError> {
    if !out.success {
        Err(CaptureError::CommandFailed(cmd))
    } else {
        match single_line(out.stdout@) {
            Some(l) => Ok(l),
            None => Err(CaptureError::UnexpectedOutput(cmd)),
        }
    }
}

/// The one line that a command printed, as `command_line` says.
pub fn run_line(out: &CommandOutput, cmd: Command) -> (r: Result<String, CaptureError>)
    ensures
        match r {
            Ok(l) => command_line(*out, cmd) == Ok::<Seq<char>, CaptureError>(l@),
            Err(e) => command_line(*out, cmd) == Err::<Seq<char>, CaptureError>(e),
        },
{
    if !out.success {
        return Err(CaptureError::CommandFailed(cmd));
    }
    match output_line(out.stdout.as_str()) {
        Some(l) => Ok(l),
        None => Err(CaptureError::UnexpectedOutput(cmd)),
    }
}

/// What `str::to_lowercase` makes of a text.
pub uninterp spec fn lower_of(s: Seq<char>) -> Seq<char>;

/// Relies on `str::to_lowercase`: its result depends on the characters of the
/// text alone.
#[verifier::external_body]
fn lowercase(s: &str) -> (r: String)
    ensures
        r@ == lower_of(s@),
{
    s.to_lowercase()
}

/// The prefix that cargo gives the variable of each active feature.
pub open spec fn feature_marker() -> Seq<char> {
    "CARGO_FEATURE_"@
}

/// The feature that a variable announces, if it announces one: its name with
/// the marker taken out, in lower case.
pub open spec fn feature_of(key: Seq<char>) -> Option<Seq<char>> {
    if feature_marker().is_prefix_of(key) {
        Some(lower_of(remove_all(key, feature_marker())))
    } else {
        None
    }
}

/// The features that the variables announce, in the order of the variables.
pub open spec fn feature_names(vars: Seq<(Seq<char>, Seq<char>)>) -> Seq<Seq<char>>
    decreases vars.len(),
{
    if vars.len() == 0 {
        Seq::empty()
    } else {
        let before = feature_names(vars.drop_last());
        match feature_of(vars.last().0) {
            Some(f) => before.push(f),
            None => before,
        }
    }
}

/// The text of a feature list: `default` where it is empty, else the names
/// joined by commas.
pub open spec fn features_text(names: Seq<Seq<char>>) -> Seq<char> {
    if names.len() == 0 {
        "default"@
    } else {
        join_comma(names)
    }
}

/// The feature that an environment variable announces, if it is a feature
/// variable.
pub fn is_cargo_feature(var: (String, String)) -> (r: Option<String>)
    ensures
        match r {
            Some(f) => feature_of(var.0@) == Some(f@),
            None => feature_of(var.0@) is None,
        },
{
    let (k, _) = var;
    let marker = "CARGO_FEATURE_";
    if starts_with(k.as_str(), marker) {
        let bare = remove_all_of(k.as_str(), marker);
        Some(lowercase(bare.as_str()))
    } else {
        None
    }
}

/// The text of a list of active features, as `features_text` says.
pub fn join_features(names: &Vec<String>) -> (r: String)
    ensures
        r@ == features_text(views(names@)),
{
    if names.len() == 0 {
        String::from_str("default")
    } else {
        join_with_comma(names)
    }
}

/// The active features that the environment announces, as text.
pub fn cargo_features(vars: &Vec<(String, String)>) -> (r: String)
    ensures
        r@ == features_text(feature_names(pair_views(vars@))),
{
    let ghost pv = pair_views(vars@);
    let mut names: Vec<String> = Vec::new();
    let n = vars.len();
    let mut i: usize = 0;
    while i < n
        invariant
            n == vars@.len(),
            pv == pair_views(vars@),
            i <= n,
            views(names@) == feature_names(pv.take(i as int)),
        decreases n - i,
    {
        proof {
            assert(pv.take(i + 1).drop_last() =~= pv.take(i as int));
        }
        let ghost before = names@;
        match is_cargo_feature((vars[i].0.clone(), vars[i].1.clone())) {
            Some(f) => {
                names.push(f);
                assert(views(names@) =~= views(before).push(f@));
            },
            None => {},
        }
        i = i + 1;
    }
    assert(pv.take(n as int) =~= pv);
    join_features(&names)
}

/// The parts of the compiler's version report that a record keeps.
pub struct RustcMeta {
    /// The compiler's semver, as text.
    pub semver: String,
    /// The LLVM version, as `major.minor`, if the compiler reported one.
    pub llvm_version: Option<String>,
    /// The compiler's commit hash, if it reported one.
    pub commit_hash: Option<String>,
}

pub open spec fn opt_view(o: Option<String>) -> Option<Seq<char>> {
    match o {
        Some(s) => Some(s@),
        None => None,
    }
}

impl View for RustcMeta {
    type V = (Seq<char>, Option<Seq<char>>, Option<Seq<char>>);

    open spec fn view(&self) -> (Seq<char>, Option<Seq<char>>, Option<Seq<char>>) {
        (self.semver@, opt_view(self.llvm_version), opt_view(self.commit_hash))
    }
}

/// What `rustc_version::version_meta_for` reads from a verbose version
/// report (`rustc -vV`): the semver, the LLVM version and the commit hash, as
/// text; nothing where it refuses the report.
pub uninterp spec fn rustc_meta_of(
    verbose: Seq<char>,
) -> Option<(Seq<char>, Option<Seq<char>>, Option<Seq<char>>)>;

/// Relies on `rustc_version::version_meta_for`, which parses the compiler's
/// verbose version report; its result depends on the text alone.
#[verifier::external_body]
fn rustc_meta(verbose: &str) -> (r: Option<RustcMeta>)
    ensures
        match r {
            Some(m) => rustc_meta_of(verbose@) == Some(m@),
            None => rustc_meta_of(verbose@) is None,
        },
{
    match rustc_version::version_meta_for(verbose) {
        Ok(m) => Some(RustcMeta {
            semver: m.semver.to_string(),
            llvm_version: match m.llvm_version {
                Some(l) => Some(l.to_string()),
                None => None,
            },
            commit_hash: m.commit_hash,
        }),
        Err(_) => None,
    }
}

/// The compiler's semver, LLVM version and commit hash from its version
/// report, or why they cannot be had.
pub open spec fn rustc_fields_spec(
    meta: Option<(Seq<char>, Option<Seq<char>>, Option<Seq<char>>)>,
) -> Result<(Seq<char>, Seq<char>, Seq<char>), CaptureError> {
    match meta {
        None => Err(CaptureError::BadRustcVersion),
        Some(m) => match m.1 {
            None => Err(CaptureError::MissingLlvmVersion),
            Some(llvm) => match m.2 {
                None => Err(CaptureError::MissingCommitHash),
                Some(sha) => Ok((m.0, llvm, sha)),
            },
        },
    }
}

pub open spec fn meta_view(meta: Option<RustcMeta>) -> Option<
    (Seq<char>, Option<Seq<char>>, Option<Seq<char>>),
> {
    match meta {
        Some(m) => Some(m@),
        None => None,
    }
}

/// The compiler's semver, LLVM version and commit hash, as
/// `rustc_fields_spec` says.
pub fn rustc_fields(meta: Option<RustcMeta>) -> (r: Result<(String, String, String), CaptureError>)
    ensures
        match r {
            Ok(t) => rustc_fields_spec(meta_view(meta)) == Ok::<
                (Seq<char>, Seq<char>, Seq<char>),
                CaptureError,
            >((t.0@, t.1@, t.2@)),
            Err(e) => rustc_fields_spec(meta_view(meta)) == Err::<
                (Seq<char>, Seq<char>, Seq<char>),
                CaptureError,
            >(e),
        },
{
    match meta {
        None => Err(CaptureError::BadRustcVersion),
        Some(m) => match m.llvm_version {
            None => Err(CaptureError::MissingLlvmVersion),
            Some(llvm) => match m.commit_hash {
                None => Err(CaptureError::MissingCommitHash),
                Some(sha) => Ok((m.semver, llvm, sha)),
            },
        },
    }
}

/// Everything a capture reads: the package constants, what each command
/// printed, and the build environment.
pub struct CaptureInputs {
    /// The package's name.
    pub name: String,
    /// The package's semver.
    pub semver: String,
    /// The output of `Command::GitDescribe`.
    pub describe: CommandOutput,
    /// The output of `Command::GitShow`.
    pub show: CommandOutput,
    /// The output of `Command::GitStatus`.
    pub status: CommandOutput,
    /// The build environment's variables, in the order it lists them.
    pub env_vars: Vec<(String, String)>,
    /// The `PROFILE` variable, if set.
    pub profile: Option<String>,
    /// The output of `Command::Rustc`.
    pub rustc: CommandOutput,
}

/// The record that a capture yields, or the first thing that went wrong, in
/// the order: commit sha, commit time, working tree status, profile, compiler.
pub open spec fn create_version_spec(c: CaptureInputs) -> Result<VersionView, CaptureError> {
    match command_line(c.describe, Command::GitDescribe) {
        Err(e) => Err(e),
        Ok(git_sha) => match command_line(c.show, Command::GitShow) {
            Err(e) => Err(e),
            Ok(git_datetime) => if !c.status.success {
                Err(CaptureError::CommandFailed(Command::GitStatus))
            } else {
                match c.profile {
                    None => Err(CaptureError::MissingProfile),
                    Some(profile) => if !c.rustc.success {
                        Err(CaptureError::CommandFailed(Command::Rustc))
                    } else {
                        match rustc_fields_spec(rustc_meta_of(c.rustc.stdout@)) {
                            Err(e) => Err(e),
                            Ok(t) => Ok(
                                VersionView {
                                    name: c.name@,
                                    semver: c.semver@,
                                    git_sha,
                                    git_datetime,
                                    git_dirty: c.status.stdout@.len() > 0,
                                    cargo_features: features_text(
                                        feature_names(pair_views(c.env_vars@)),
                                    ),
                                    cargo_profile: profile@,
                                    rustc_semver: t.0,
                                    rustc_llvm: t.1,
                                    rustc_sha: t.2,
                                },
                            ),
                        }
                    },
                }
            },
        },
    }
}

/// Gathers the record of this build from what was read, as
/// `create_version_spec` says. No record is made unless every field could be
/// had.
pub fn create_version(c: &CaptureInputs) -> (r: Result<Version, CaptureError>)
    ensures
        match r {
            Ok(v) => create_version_spec(*c) == Ok::<VersionView, CaptureError>(v@),
            Err(e) => create_version_spec(*c) == Err::<VersionView, CaptureError>(e),
        },
{
    let git_sha = match run_line(&c.describe, Command::GitDescribe) {
        Ok(l) => l,
        Err(e) => return Err(e),
    };
    let git_datetime = match run_line(&c.show, Command::GitShow) {
        Ok(l) => l,
        Err(e) => return Err(e),
    };
    if !c.status.success {
        return Err(CaptureError::CommandFailed(Command::GitStatus));
    }
    let git_dirty = c.status.stdout.as_str().unicode_len() > 0;
    let cargo_features = cargo_features(&c.env_vars);
    let cargo_profile = match &c.profile {
        Some(p) => p.clone(),
        None => return Err(CaptureError::MissingProfile),
    };
    if !c.rustc.success {
        return Err(CaptureError::CommandFailed(Command::Rustc));
    }
    let meta = rustc_meta(c.rustc.stdout.as_str());
    let (rustc_semver, rustc_llvm, rustc_sha) = match rustc_fields(meta) {
        Ok(t) => t,
        Err(e) => return Err(e),
    };
    Ok(
        Version {
            name: c.name.clone(),
            semver: c.semver.clone(),
            git_sha,
            git_datetime,
            git_dirty,
            cargo_features,
            cargo_profile,
            rustc_semver,
            rustc_llvm,
            rustc_sha,
        },
    )
}

/// A command that exits with failure stops the capture: no record comes out,
/// so no directive can be emitted.
pub proof fn lemma_failed_command_aborts(c: CaptureInputs)
    requires
        !c.describe.success || !c.show.success || !c.status.success || !c.rustc.success,
    ensures
        create_version_spec(c) is Err,
{
}

/// A captured record is dirty exactly where `git status` printed something.
pub proof fn lemma_dirty_iff_status_output(c: CaptureInputs)
    requires
        create_version_spec(c) is Ok,
    ensures
        create_version_spec(c)->Ok_0.git_dirty <==> c.status.stdout@.len() > 0,
{
}

/// The directive that asks the build driver to re-run the build script when
/// `path` changes.
pub open spec fn rerun_directive(path: Seq<char>) -> Seq<char> {
    "cargo:rerun-if-changed="@ + path
}

/// The re-run hints, or the first thing that went wrong: the build script
/// itself, and the repository's HEAD file, found from the top-level directory
/// and the git directory that `git rev-parse` printed. The touch of the build
/// script must succeed and print nothing.
pub open spec fn setup_rerun_spec(
    touch: CommandOutput,
    toplevel: CommandOutput,
    git_dir: CommandOutput,
) -> Result<Seq<Seq<char>>, CaptureError> {
    if !touch.success {
        Err(CaptureError::CommandFailed(Command::Touch))
    } else if touch.stdout@.len() > 0 {
        Err(CaptureError::UnexpectedOutput(Command::Touch))
    } else {
        match command_line(toplevel, Command::GitToplevel) {
            Err(e) => Err(e),
            Ok(top) => match command_line(git_dir, Command::GitDir) {
                Err(e) => Err(e),
                Ok(dir) => Ok(
                    seq![
                        rerun_directive("build.rs"@),
                        rerun_directive(path_join(path_join(top, dir), "HEAD"@)),
                    ],
                ),
            },
        }
    }
}

/// The re-run hints for the build driver, as `setup_rerun_spec` says.
pub fn setup_rerun(touch: &CommandOutput, toplevel: &CommandOutput, git_dir: &CommandOutput) -> (r:
    Result<Vec<String>, CaptureError>)
    ensures
        match r {
            Ok(lines) => setup_rerun_spec(*touch, *toplevel, *git_dir) == Ok::<
                Seq<Seq<char>>,
                CaptureError,
            >(views(lines@)),
            Err(e) => setup_rerun_spec(*touch, *toplevel, *git_dir) == Err::<
                Seq<Seq<char>>,
                CaptureError,
            >(e),
        },
{
    if !touch.success {
        return Err(CaptureError::CommandFailed(Command::Touch));
    }
    if touch.stdout.as_str().unicode_len() > 0 {
        return Err(CaptureError::UnexpectedOutput(Command::Touch));
    }
    let top = match run_line(toplevel, Command::GitToplevel) {
        Ok(l) => l,
        Err(e) => return Err(e),
    };
    let dir = match run_line(git_dir, Command::GitDir) {
        Ok(l) => l,
        Err(e) => return Err(e),
    };
    let repo = join_path(top.as_str(), dir.as_str());
    let head = join_path(repo.as_str(), "HEAD");
    let mut script = String::from_str("cargo:rerun-if-changed=");
    script.append("build.rs");
    let mut head_line = String::from_str("cargo:rerun-if-changed=");
    head_line.append(head.as_str());
    let mut lines: Vec<String> = Vec::new();
    lines.push(script);
    lines.push(head_line);
    assert(views(lines@) =~= seq![
        rerun_directive("build.rs"@),
        rerun_directive(path_join(path_join(top@, dir@), "HEAD"@)),
    ]);
    Ok(lines)
}

} // verus!
