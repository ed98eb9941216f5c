use nearapps_version::capture::run_line;
use nearapps_version::text::{join_path, output_line, remove_all_of};
use nearapps_version::{
    cargo_features, create_version, is_cargo_feature, join_features, rustc_fields, setup_rerun,
    CaptureError, CaptureInputs, Command, CommandOutput, RustcMeta, Version,
};

const RUSTC_VV: &str = "rustc 1.56.1 (59eed8a2a 2021-11-01)
binary: rustc
commit-hash: 59eed8a2aac0230a8b53e89d4e99d55912ba6b35
commit-date: 2021-11-01
host: x86_64-unknown-linux-gnu
release: 1.56.1
LLVM version: 13.0.0
";

fn ok(s: &str) -> CommandOutput {
    CommandOutput { success: true, stdout: s.to_string() }
}

fn failed() -> CommandOutput {
    CommandOutput { success: false, stdout: String::new() }
}

fn var(k: &str, v: &str) -> (String, String) {
    (k.to_string(), v.to_string())
}

fn inputs() -> CaptureInputs {
    CaptureInputs {
        name: "my-project".to_string(),
        semver: "0.1.0".to_string(),
        describe: ok("2beb5ec70ee2c0490cd0f4964544c998e6badbcc\n"),
        show: ok("2022-02-11 14:26:08 -0300\n"),
        status: ok(""),
        env_vars: vec![var("PATH", "/bin"), var("CARGO_FEATURE_STD", "1")],
        profile: Some("release".to_string()),
        rustc: ok(RUSTC_VV),
    }
}

#[test]
fn output_line_takes_exactly_one_line() {
    assert_eq!(output_line("abc\n"), Some("abc".to_string()));
    assert_eq!(output_line("abc"), Some("abc".to_string()));
    assert_eq!(output_line("abc\r\n"), Some("abc".to_string()));
    assert_eq!(output_line("abc\r"), Some("abc\r".to_string()));
    assert_eq!(output_line("\n"), Some(String::new()));
    assert_eq!(output_line(""), None);
    assert_eq!(output_line("a\nb"), None);
    assert_eq!(output_line("a\nb\n"), None);
    assert_eq!(output_line("a\n\n"), None);
}

#[test]
fn run_line_checks_status_then_shape() {
    assert_eq!(run_line(&ok("x\n"), Command::GitShow), Ok("x".to_string()));
    assert_eq!(
        run_line(&failed(), Command::GitShow),
        Err(CaptureError::CommandFailed(Command::GitShow))
    );
    assert_eq!(
        run_line(&ok("x\ny\n"), Command::GitDescribe),
        Err(CaptureError::UnexpectedOutput(Command::GitDescribe))
    );
}

#[test]
fn feature_variables_are_recognised() {
    assert_eq!(is_cargo_feature(var("CARGO_FEATURE_FOO", "1")), Some("foo".to_string()));
    assert_eq!(
        is_cargo_feature(var("CARGO_FEATURE_SERDE_JSON", "1")),
        Some("serde_json".to_string())
    );
    assert_eq!(is_cargo_feature(var("PROFILE", "release")), None);
    assert_eq!(is_cargo_feature(var("XCARGO_FEATURE_FOO", "1")), None);
}

#[test]
fn marker_is_removed_wherever_it_occurs() {
    assert_eq!(remove_all_of("CARGO_FEATURE_ACARGO_FEATURE_B", "CARGO_FEATURE_"), "AB");
    assert_eq!(remove_all_of("aaa", "aa"), "a");
    assert_eq!(remove_all_of("abc", ""), "abc");
    assert_eq!(
        is_cargo_feature(var("CARGO_FEATURE_XCARGO_FEATURE_Y", "1")),
        Some("xy".to_string())
    );
}

#[test]
fn features_default_when_none_active() {
    assert_eq!(cargo_features(&vec![var("PATH", "/bin"), var("PROFILE", "debug")]), "default");
    assert_eq!(cargo_features(&Vec::new()), "default");
    assert_eq!(join_features(&Vec::new()), "default");
}

#[test]
fn features_joined_in_enumeration_order() {
    let vars = vec![
        var("CARGO_FEATURE_FOO", "1"),
        var("HOME", "/root"),
        var("CARGO_FEATURE_BAR", "1"),
    ];
    assert_eq!(cargo_features(&vars), "foo,bar");
    assert_eq!(join_features(&vec!["one".to_string()]), "one");
    assert_eq!(
        join_features(&vec!["a".to_string(), "b".to_string(), "c".to_string()]),
        "a,b,c"
    );
}

#[test]
fn rustc_fields_need_llvm_and_commit() {
    let meta = |llvm: Option<&str>, sha: Option<&str>| RustcMeta {
        semver: "1.56.1".to_string(),
        llvm_version: llvm.map(|s| s.to_string()),
        commit_hash: sha.map(|s| s.to_string()),
    };
    assert_eq!(
        rustc_fields(Some(meta(Some("13.0"), Some("abc")))),
        Ok(("1.56.1".to_string(), "13.0".to_string(), "abc".to_string()))
    );
    assert_eq!(rustc_fields(Some(meta(None, Some("abc")))), Err(CaptureError::MissingLlvmVersion));
    assert_eq!(rustc_fields(Some(meta(Some("13.0"), None))), Err(CaptureError::MissingCommitHash));
    assert_eq!(rustc_fields(None), Err(CaptureError::BadRustcVersion));
}

#[test]
fn create_version_from_clean_checkout() {
    let v = create_version(&inputs()).unwrap();
    assert_eq!(
        v,
        Version {
            name: "my-project".to_string(),
            semver: "0.1.0".to_string(),
            git_sha: "2beb5ec70ee2c0490cd0f4964544c998e6badbcc".to_string(),
            git_datetime: "2022-02-11 14:26:08 -0300".to_string(),
            git_dirty: false,
            cargo_features: "std".to_string(),
            cargo_profile: "release".to_string(),
            rustc_semver: "1.56.1".to_string(),
            rustc_llvm: "13.0".to_string(),
            rustc_sha: "59eed8a2aac0230a8b53e89d4e99d55912ba6b35".to_string(),
        }
    );
}

#[test]
fn untracked_file_makes_the_record_dirty() {
    let mut c = inputs();
    c.status = ok("?? new_file.txt\n");
    assert!(create_version(&c).unwrap().git_dirty);
}

#[test]
fn any_failed_command_aborts_the_capture() {
    let mut c = inputs();
    c.describe = failed();
    assert_eq!(create_version(&c), Err(CaptureError::CommandFailed(Command::GitDescribe)));
    let mut c = inputs();
    c.show = failed();
    assert_eq!(create_version(&c), Err(CaptureError::CommandFailed(Command::GitShow)));
    let mut c = inputs();
    c.status = failed();
    assert_eq!(create_version(&c), Err(CaptureError::CommandFailed(Command::GitStatus)));
    let mut c = inputs();
    c.rustc = failed();
    assert_eq!(create_version(&c), Err(CaptureError::CommandFailed(Command::Rustc)));
}

#[test]
fn capture_errors_on_missing_pieces() {
    let mut c = inputs();
    c.profile = None;
    assert_eq!(create_version(&c), Err(CaptureError::MissingProfile));
    let mut c = inputs();
    c.describe = ok("");
    assert_eq!(create_version(&c), Err(CaptureError::UnexpectedOutput(Command::GitDescribe)));
    let mut c = inputs();
    c.rustc = ok("not a version report\n");
    assert_eq!(create_version(&c), Err(CaptureError::BadRustcVersion));
    let mut c = inputs();
    c.rustc = ok(&RUSTC_VV.replace("LLVM version: 13.0.0\n", ""));
    assert_eq!(create_version(&c), Err(CaptureError::MissingLlvmVersion));
    let mut c = inputs();
    c.rustc = ok(&RUSTC_VV.replace("59eed8a2aac0230a8b53e89d4e99d55912ba6b35", "unknown"));
    assert_eq!(create_version(&c), Err(CaptureError::MissingCommitHash));
}

#[test]
fn paths_join_like_pathbuf() {
    assert_eq!(join_path("/repo", ".git"), "/repo/.git");
    assert_eq!(join_path("/repo/", ".git"), "/repo/.git");
    assert_eq!(join_path("/repo", "/elsewhere/.git"), "/elsewhere/.git");
    assert_eq!(join_path("", "HEAD"), "HEAD");
}

#[test]
fn setup_rerun_points_at_head() {
    let lines = setup_rerun(&ok(""), &ok("/work/repo\n"), &ok(".git\n")).unwrap();
    assert_eq!(
        lines,
        vec![
            "cargo:rerun-if-changed=build.rs".to_string(),
            "cargo:rerun-if-changed=/work/repo/.git/HEAD".to_string(),
        ]
    );
    let lines = setup_rerun(&ok(""), &ok("/work/repo\n"), &ok("/abs/git\n")).unwrap();
    assert_eq!(lines[1], "cargo:rerun-if-changed=/abs/git/HEAD");
}

#[test]
fn setup_rerun_fails_on_any_command() {
    assert_eq!(
        setup_rerun(&failed(), &ok("/r\n"), &ok(".git\n")),
        Err(CaptureError::CommandFailed(Command::Touch))
    );
    assert_eq!(
        setup_rerun(&ok("noise"), &ok("/r\n"), &ok(".git\n")),
        Err(CaptureError::UnexpectedOutput(Command::Touch))
    );
    assert_eq!(
        setup_rerun(&ok(""), &failed(), &ok(".git\n")),
        Err(CaptureError::CommandFailed(Command::GitToplevel))
    );
    assert_eq!(
        setup_rerun(&ok(""), &ok("/r\n"), &ok("a\nb\n")),
        Err(CaptureError::UnexpectedOutput(Command::GitDir))
    );
}
