use nearapps_version::{parse_directive, set_env, EnvError, EnvKey, InvalidKey, Version};

fn sample() -> Version {
    Version {
        name: "my-project".to_string(),
        semver: "0.1.0".to_string(),
        git_sha: "2beb5ec70ee2c0490cd0f4964544c998e6badbcc".to_string(),
        git_datetime: "2022-02-11 14:26:08 -0300".to_string(),
        git_dirty: false,
        cargo_features: "default".to_string(),
        cargo_profile: "release".to_string(),
        rustc_semver: "1.56.1".to_string(),
        rustc_llvm: "13.0".to_string(),
        rustc_sha: "59eed8a2aac0230a8b53e89d4e99d55912ba6b35".to_string(),
    }
}

fn read_back(lines: &[String]) -> Vec<(String, String)> {
    lines.iter().map(|l| parse_directive(l).unwrap()).collect()
}

#[test]
fn set_env_formats_a_directive() {
    assert_eq!(
        set_env("NEARAPPS_GIT_SHA", "abc"),
        Ok("cargo:rustc-env=NEARAPPS_GIT_SHA=abc".to_string())
    );
    assert_eq!(set_env("K", ""), Ok("cargo:rustc-env=K=".to_string()));
    assert_eq!(set_env("K", "a=b"), Ok("cargo:rustc-env=K=a=b".to_string()));
}

#[test]
fn set_env_rejects_a_key_with_delimiter() {
    assert_eq!(set_env("A=B", "v"), Err(InvalidKey));
    assert_eq!(set_env("=", "v"), Err(InvalidKey));
    assert_eq!(set_env("KEY=", ""), Err(InvalidKey));
}

#[test]
fn version_set_env_emits_eight_directives() {
    let lines = sample().set_env();
    assert_eq!(
        lines,
        vec![
            "cargo:rustc-env=NEARAPPS_GIT_SHA=2beb5ec70ee2c0490cd0f4964544c998e6badbcc".to_string(),
            "cargo:rustc-env=NEARAPPS_GIT_DATETIME=2022-02-11 14:26:08 -0300".to_string(),
            "cargo:rustc-env=NEARAPPS_GIT_DIRTY=false".to_string(),
            "cargo:rustc-env=NEARAPPS_CARGO_FEATURES=default".to_string(),
            "cargo:rustc-env=NEARAPPS_CARGO_PROFILE=release".to_string(),
            "cargo:rustc-env=NEARAPPS_RUSTC_SEMVER=1.56.1".to_string(),
            "cargo:rustc-env=NEARAPPS_RUSTC_LLVM=13.0".to_string(),
            "cargo:rustc-env=NEARAPPS_RUSTC_SHA=59eed8a2aac0230a8b53e89d4e99d55912ba6b35".to_string(),
        ]
    );
}

#[test]
fn parse_directive_splits_at_first_delimiter() {
    assert_eq!(
        parse_directive("cargo:rustc-env=K=a=b"),
        Some(("K".to_string(), "a=b".to_string()))
    );
    assert_eq!(parse_directive("cargo:rustc-env=K="), Some(("K".to_string(), String::new())));
    assert_eq!(parse_directive("cargo:rustc-env=K"), None);
    assert_eq!(parse_directive("cargo:rerun-if-changed=build.rs"), None);
    assert_eq!(parse_directive(""), None);
}

#[test]
fn round_trip_through_directives() {
    let v = sample();
    let vars = read_back(&v.set_env());
    let back = Version::from_env("my-project", "0.1.0", &vars).unwrap();
    assert_eq!(back, v);
}

#[test]
fn round_trip_keeps_a_dirty_flag_and_odd_values() {
    let mut v = sample();
    v.git_dirty = true;
    v.cargo_features = "foo,bar".to_string();
    v.git_datetime = "a=b=c".to_string();
    v.rustc_llvm = String::new();
    let vars = read_back(&v.set_env());
    assert_eq!(Version::from_env("my-project", "0.1.0", &vars), Ok(v));
}

#[test]
fn from_env_reports_the_first_missing_variable() {
    let mut vars = read_back(&sample().set_env());
    vars.retain(|(k, _)| k != "NEARAPPS_CARGO_PROFILE" && k != "NEARAPPS_RUSTC_SHA");
    assert_eq!(
        Version::from_env("my-project", "0.1.0", &vars),
        Err(EnvError::Missing(EnvKey::CargoProfile))
    );
    assert_eq!(
        Version::from_env("my-project", "0.1.0", &Vec::new()),
        Err(EnvError::Missing(EnvKey::GitSha))
    );
}

#[test]
fn from_env_rejects_a_dirty_flag_that_is_not_a_bool() {
    let mut vars = read_back(&sample().set_env());
    for (k, v) in vars.iter_mut() {
        if k == "NEARAPPS_GIT_DIRTY" {
            *v = "yes".to_string();
        }
    }
    assert_eq!(Version::from_env("my-project", "0.1.0", &vars), Err(EnvError::BadDirty));
}

#[test]
fn from_env_takes_the_first_of_two_equal_names() {
    let mut vars = vec![("NEARAPPS_GIT_SHA".to_string(), "first".to_string())];
    vars.extend(read_back(&sample().set_env()));
    let v = Version::from_env("my-project", "0.1.0", &vars).unwrap();
    assert_eq!(v.git_sha, "first");
}

#[test]
fn env_key_names() {
    assert_eq!(EnvKey::GitSha.name(), "NEARAPPS_GIT_SHA");
    assert_eq!(EnvKey::GitDirty.name(), "NEARAPPS_GIT_DIRTY");
    assert_eq!(EnvKey::RustcSha.name(), "NEARAPPS_RUSTC_SHA");
}
