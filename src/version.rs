//! The version record, its propagation as build directives, and its
//! reconstruction from the environment those directives produce.
use vstd::prelude::*;
use vstd::string::*;
use crate::text::{lemma_split_once_joined, split_once, split_once_char, starts_with};

verus! {

/// Information gathered right before compilation.
#[derive(Debug, PartialEq)]
pub struct Version {
    /// The project's name, eg. `my-project`.
    pub name: String,
    /// The project's semver, eg. `0.1.0`.
    pub semver: String,
    /// The git 40-byte commit sha, eg. `2beb5ec70ee2c0490cd0f4964544c998e6badbcc`.
    pub git_sha: String,
    /// The commit datetime, eg. `2022-02-11 14:26:08 -0300`.
    pub git_datetime: String,
    /// Whether there are modified or untracked files. A contract that was
    /// meant to be reproducible should show `false` here; otherwise files
    /// that were not committed could change the build contents.
    pub git_dirty: bool,
    /// Active cargo features, comma-separated, or `default` if none were active.
    pub cargo_features: String,
    /// The build profile, eg. `release`.
    pub cargo_profile: String,
    /// The compiler's version, eg. `1.56.1`.
    pub rustc_semver: String,
    /// The compiler's LLVM version, eg. `13.0`.
    pub rustc_llvm: String,
    /// The compiler's commit hash.
    pub rustc_sha: String,
}

/// The fields of a `Version` as text.
pub struct VersionView {
    pub name: Seq<char>,
    pub semver: Seq<char>,
    pub git_sha: Seq<char>,
    pub git_datetime: Seq<char>,
    pub git_dirty: bool,
    pub cargo_features: Seq<char>,
    pub cargo_profile: Seq<char>,
    pub rustc_semver: Seq<char>,
    pub rustc_llvm: Seq<char>,
    pub rustc_sha: Seq<char>,
}

impl View for Version {
    type V = VersionView;

    open spec fn view(&self) -> VersionView {
        VersionView {
            name: self.name@,
            semver: self.semver@,
            git_sha: self.git_sha@,
            git_datetime: self.git_datetime@,
            git_dirty: self.git_dirty,
            cargo_features: self.cargo_features@,
            cargo_profile: self.cargo_profile@,
            rustc_semver: self.rustc_semver@,
            rustc_llvm: self.rustc_llvm@,
            rustc_sha: self.rustc_sha@,
        }
    }
}

/// A type that can report the version it was built from.
pub trait IVersion {
    fn version(&self) -> Version;
}

/// The environment variables that carry a `Version` from the build script to
/// the final compile. Name and semver are not among them: cargo provides both.
#[derive(Debug, Clone, Copy, PartialEq, Eq, Structural)]
pub enum EnvKey {
    GitSha,
    GitDatetime,
    GitDirty,
    CargoFeatures,
    CargoProfile,
    RustcSemver,
    RustcLlvm,
    RustcSha,
}

pub open spec fn key_name(k: EnvKey) -> Seq<char> {
    match k {
        EnvKey::GitSha => "NEARAPPS_GIT_SHA"@,
        EnvKey::GitDatetime => "NEARAPPS_GIT_DATETIME"@,
        EnvKey::GitDirty => "NEARAPPS_GIT_DIRTY"@,
        EnvKey::CargoFeatures => "NEARAPPS_CARGO_FEATURES"@,
        EnvKey::CargoProfile => "NEARAPPS_CARGO_PROFILE"@,
        EnvKey::RustcSemver => "NEARAPPS_RUSTC_SEMVER"@,
        EnvKey::RustcLlvm => "NEARAPPS_RUSTC_LLVM"@,
        EnvKey::RustcSha => "NEARAPPS_RUSTC_SHA"@,
    }
}

impl EnvKey {
    /// The variable's name.
    pub fn name(&self) -> (r: &'static str)
        ensures
            r@ == key_name(*self),
    {
        match self {
            EnvKey::GitSha => "NEARAPPS_GIT_SHA",
            EnvKey::GitDatetime => "NEARAPPS_GIT_DATETIME",
            EnvKey::GitDirty => "NEARAPPS_GIT_DIRTY",
            EnvKey::CargoFeatures => "NEARAPPS_CARGO_FEATURES",
            EnvKey::CargoProfile => "NEARAPPS_CARGO_PROFILE",
            EnvKey::RustcSemver => "NEARAPPS_RUSTC_SEMVER",
            EnvKey::RustcLlvm => "NEARAPPS_RUSTC_LLVM",
            EnvKey::RustcSha => "NEARAPPS_RUSTC_SHA",
        }
    }
}

/// No variable name holds `=`, and no two keys share a name.
pub proof fn lemma_key_names()
    ensures
        forall|k: EnvKey| !(#[trigger] key_name(k)).contains('='),
        forall|a: EnvKey, b: EnvKey| a != b ==> key_name(a) != key_name(b),
{
    reveal_strlit("NEARAPPS_GIT_SHA");
    reveal_strlit("NEARAPPS_GIT_DATETIME");
    reveal_strlit("NEARAPPS_GIT_DIRTY");
    reveal_strlit("NEARAPPS_CARGO_FEATURES");
    reveal_strlit("NEARAPPS_CARGO_PROFILE");
    reveal_strlit("NEARAPPS_RUSTC_SEMVER");
    reveal_strlit("NEARAPPS_RUSTC_LLVM");
    reveal_strlit("NEARAPPS_RUSTC_SHA");
    assert(key_name(EnvKey::GitSha).len() == 16);
    assert(key_name(EnvKey::GitDatetime).len() == 21);
    assert(key_name(EnvKey::GitDirty).len() == 18);
    assert(key_name(EnvKey::CargoFeatures).len() == 23);
    assert(key_name(EnvKey::CargoProfile).len() == 22);
    assert(key_name(EnvKey::RustcSemver).len() == 21);
    assert(key_name(EnvKey::RustcLlvm).len() == 19);
    assert(key_name(EnvKey::RustcSha).len() == 18);
    assert(key_name(EnvKey::GitDatetime)[9] != key_name(EnvKey::RustcSemver)[9]);
    assert(key_name(EnvKey::GitDirty)[9] != key_name(EnvKey::RustcSha)[9]);
    assert forall|a: EnvKey, b: EnvKey| a != b implies key_name(a) != key_name(b) by {
        if key_name(a) == key_name(b) {
            assert(key_name(a)[9] == key_name(b)[9]);
        }
    }
}

/// The text of a flag: `true` or `false`.
pub open spec fn bool_text(b: bool) -> Seq<char> {
    if b {
        "true"@
    } else {
        "false"@
    }
}

/// The flag that a text spells, as `bool`'s `FromStr` reads it.
pub open spec fn parse_bool(t: Seq<char>) -> Option<bool> {
    if t == "true"@ {
        Some(true)
    } else if t == "false"@ {
        Some(false)
    } else {
        None
    }
}

/// The value that a record gives to a variable.
pub open spec fn field(v: VersionView, k: EnvKey) -> Seq<char> {
    match k {
        EnvKey::GitSha => v.git_sha,
        EnvKey::GitDatetime => v.git_datetime,
        EnvKey::GitDirty => bool_text(v.git_dirty),
        EnvKey::CargoFeatures => v.cargo_features,
        EnvKey::CargoProfile => v.cargo_profile,
        EnvKey::RustcSemver => v.rustc_semver,
        EnvKey::RustcLlvm => v.rustc_llvm,
        EnvKey::RustcSha => v.rustc_sha,
    }
}

/// The variables in the order they are emitted.
pub open spec fn env_keys() -> Seq<EnvKey> {
    seq![
        EnvKey::GitSha,
        EnvKey::GitDatetime,
        EnvKey::GitDirty,
        EnvKey::CargoFeatures,
        EnvKey::CargoProfile,
        EnvKey::RustcSemver,
        EnvKey::RustcLlvm,
        EnvKey::RustcSha,
    ]
}

/// The variables that carry a record, as (name, value) pairs.
pub open spec fn env_pairs(v: VersionView) -> Seq<(Seq<char>, Seq<char>)> {
    env_keys().map_values(|k: EnvKey| (key_name(k), field(v, k)))
}

/// What a directive starts with.
pub open spec fn directive_prefix() -> Seq<char> {
    "cargo:rustc-env="@
}

/// The build directive that sets variable `key` to `value`.
pub open spec fn directive(key: Seq<char>, value: Seq<char>) -> Seq<char> {
    directive_prefix() + key + seq!['='] + value
}

/// The directives that propagate a record, one per variable.
pub open spec fn directives(v: VersionView) -> Seq<Seq<char>> {
    env_pairs(v).map_values(|p: (Seq<char>, Seq<char>)| directive(p.0, p.1))
}

/// The name and value that a directive sets, if it is one.
pub open spec fn parse_directive_spec(line: Seq<char>) -> Option<(Seq<char>, Seq<char>)> {
    if directive_prefix().is_prefix_of(line) {
        split_once(line.skip(directive_prefix().len() as int), '=')
    } else {
        None
    }
}

/// A variable name holds a `=`, so a directive for it would be read wrongly.
#[derive(Debug, Clone, Copy, PartialEq, Eq, Structural)]
pub struct InvalidKey;

/// The directive that sets `key` to `value` for the final compile. A key that
/// holds `=` is refused.
pub fn set_env(key: &str, value: &str) -> (r: Result<String, InvalidKey>)
    ensures
        r is Err <==> key@.contains('='),
        r matches Ok(line) ==> line@ == directive(key@, value@),
{
    let n = key.unicode_len();
    let mut i: usize = 0;
    while i < n
        invariant
            n == key@.len(),
            i <= n,
            forall|j: int| 0 <= j < i ==> key@[j] != '=',
        decreases n - i,
    {
        if key.get_char(i) == '=' {
            return Err(InvalidKey);
        }
        i = i + 1;
    }
    let mut line = String::from_str("cargo:rustc-env=");
    line.append(key);
    line.append("=");
    line.append(value);
    proof {
        reveal_strlit("=");
    }
    Ok(line)
}

impl Version {
    /// The directives that hand every field but name and semver (which cargo
    /// provides by itself) on to the final compile, one line each, in the
    /// order of `env_keys`.
    pub fn set_env(&self) -> (r: Vec<String>)
        ensures
            r@.map_values(|l: String| l@) == directives(self@),
    {
        proof {
            lemma_key_names();
        }
        let mut lines: Vec<String> = Vec::new();
        let dirty = if self.git_dirty { "true" } else { "false" };
        push_directive(&mut lines, EnvKey::GitSha, self.git_sha.as_str());
        push_directive(&mut lines, EnvKey::GitDatetime, self.git_datetime.as_str());
        push_directive(&mut lines, EnvKey::GitDirty, dirty);
        push_directive(&mut lines, EnvKey::CargoFeatures, self.cargo_features.as_str());
        push_directive(&mut lines, EnvKey::CargoProfile, self.cargo_profile.as_str());
        push_directive(&mut lines, EnvKey::RustcSemver, self.rustc_semver.as_str());
        push_directive(&mut lines, EnvKey::RustcLlvm, self.rustc_llvm.as_str());
        push_directive(&mut lines, EnvKey::RustcSha, self.rustc_sha.as_str());
        assert(lines@.map_values(|l: String| l@) =~= directives(self@));
        lines
    }
}

fn push_directive(lines: &mut Vec<String>, k: EnvKey, value: &str)
    ensures
        final(lines)@.len() == old(lines)@.len() + 1,
        forall|j: int| 0 <= j < old(lines)@.len() ==> final(lines)@[j] == old(lines)@[j],
        final(lines)@.last()@ == directive(key_name(k), value@),
{
    proof {
        lemma_key_names();
    }
    let line = set_env(k.name(), value);
    match line {
        Ok(l) => lines.push(l),
        Err(_) => {},
    }
}

/// Reads a directive back into the variable name and value it sets: the text
/// after the directive prefix, split at its first `=`.
pub fn parse_directive(line: &str) -> (r: Option<(String, String)>)
    ensures
        match r {
            Some(p) => parse_directive_spec(line@) == Some((p.0@, p.1@)),
            None => parse_directive_spec(line@) is None,
        },
{
    let prefix = "cargo:rustc-env=";
    if !starts_with(line, prefix) {
        return None;
    }
    let n = line.unicode_len();
    let m = prefix.unicode_len();
    let rest = line.substring_char(m, n);
    split_once_char(rest, '=')
}

/// The value of the first variable named `key`.
pub open spec fn lookup(vars: Seq<(Seq<char>, Seq<char>)>, key: Seq<char>) -> Option<Seq<char>>
    decreases vars.len(),
{
    if vars.len() == 0 {
        None
    } else if vars[0].0 == key {
        Some(vars[0].1)
    } else {
        lookup(vars.skip(1), key)
    }
}

/// The environment as (name, value) text pairs.
pub open spec fn pair_views(vars: Seq<(String, String)>) -> Seq<(Seq<char>, Seq<char>)> {
    vars.map_values(|p: (String, String)| (p.0@, p.1@))
}

pub proof fn lemma_lookup_at(vars: Seq<(Seq<char>, Seq<char>)>, key: Seq<char>, i: int)
    requires
        0 <= i < vars.len(),
        vars[i].0 == key,
        forall|j: int| 0 <= j < i ==> vars[j].0 != key,
    ensures
        lookup(vars, key) == Some(vars[i].1),
    decreases i,
{
    if i > 0 {
        lemma_lookup_at(vars.skip(1), key, i - 1);
    }
}

/// Why a record could not be read back from the environment.
#[derive(Debug, Clone, Copy, PartialEq, Eq, Structural)]
pub enum EnvError {
    /// The variable is not set.
    Missing(EnvKey),
    /// The dirty flag is neither `true` nor `false`.
    BadDirty,
}

/// The record that the environment `vars` and the two package constants
/// give, or the first thing missing from it.
pub open spec fn from_env_spec(
    name: Seq<char>,
    semver: Seq<char>,
    vars: Seq<(Seq<char>, Seq<char>)>,
) -> Result<VersionView, EnvError> {
    let get = |k: EnvKey| lookup(vars, key_name(k));
    if let Some(k) = first_missing(vars, env_keys()) {
        Err(EnvError::Missing(k))
    } else if parse_bool(get(EnvKey::GitDirty)->0) is None {
        Err(EnvError::BadDirty)
    } else {
        Ok(
            VersionView {
                name,
                semver,
                git_sha: get(EnvKey::GitSha)->0,
                git_datetime: get(EnvKey::GitDatetime)->0,
                git_dirty: parse_bool(get(EnvKey::GitDirty)->0)->0,
                cargo_features: get(EnvKey::CargoFeatures)->0,
                cargo_profile: get(EnvKey::CargoProfile)->0,
                rustc_semver: get(EnvKey::RustcSemver)->0,
                rustc_llvm: get(EnvKey::RustcLlvm)->0,
                rustc_sha: get(EnvKey::RustcSha)->0,
            },
        )
    }
}

/// The first of `keys` that `vars` does not set.
pub open spec fn first_missing(vars: Seq<(Seq<char>, Seq<char>)>, keys: Seq<EnvKey>) -> Option<
    EnvKey,
>
    decreases keys.len(),
{
    if keys.len() == 0 {
        None
    } else if lookup(vars, key_name(keys[0])) is None {
        Some(keys[0])
    } else {
        first_missing(vars, keys.skip(1))
    }
}

/// The value of the first variable named after `k`.
fn lookup_var(vars: &Vec<(String, String)>, k: EnvKey) -> (r: Option<String>)
    ensures
        match r {
            Some(v) => lookup(pair_views(vars@), key_name(k)) == Some(v@),
            None => lookup(pair_views(vars@), key_name(k)) is None,
        },
{
    let key = String::from_str(k.name());
    let ghost pv = pair_views(vars@);
    let n = vars.len();
    let mut i: usize = 0;
    assert(pv.skip(0) =~= pv);
    while i < n
        invariant
            n == vars@.len(),
            pv == pair_views(vars@),
            key@ == key_name(k),
            i <= n,
            lookup(pv, key@) == lookup(pv.skip(i as int), key@),
        decreases n - i,
    {
        proof {
            assert(pv.skip(i as int).skip(1) =~= pv.skip(i + 1));
            assert(pv.skip(i as int)[0] == pv[i as int]);
        }
        if vars[i].0 == key {
            return Some(vars[i].1.clone());
        }
        i = i + 1;
    }
    None
}

impl Version {
    /// Rebuilds a record from the environment: `name` and `semver` are the
    /// package constants, `vars` the variables that `set_env` had set. The
    /// first variable of a name counts.
    pub fn from_env(name: &str, semver: &str, vars: &Vec<(String, String)>) -> (r: Result<
        Version,
        EnvError,
    >)
        ensures
            match r {
                Ok(v) => from_env_spec(name@, semver@, pair_views(vars@)) == Ok::<
                    VersionView,
                    EnvError,
                >(v@),
                Err(e) => from_env_spec(name@, semver@, pair_views(vars@)) == Err::<
                    VersionView,
                    EnvError,
                >(e),
            },
    {
        let ghost pv = pair_views(vars@);
        let ghost keys = env_keys();
        proof {
            reveal_with_fuel(first_missing, 9);
            assert(keys.skip(1).skip(1).skip(1).skip(1).skip(1).skip(1).skip(1).skip(1).len() == 0);
        }
        let git_sha = match lookup_var(vars, EnvKey::GitSha) {
            Some(v) => v,
            None => return Err(EnvError::Missing(EnvKey::GitSha)),
        };
        let git_datetime = match lookup_var(vars, EnvKey::GitDatetime) {
            Some(v) => v,
            None => return Err(EnvError::Missing(EnvKey::GitDatetime)),
        };
        let git_dirty = match lookup_var(vars, EnvKey::GitDirty) {
            Some(v) => v,
            None => return Err(EnvError::Missing(EnvKey::GitDirty)),
        };
        let cargo_features = match lookup_var(vars, EnvKey::CargoFeatures) {
            Some(v) => v,
            None => return Err(EnvError::Missing(EnvKey::CargoFeatures)),
        };
        let cargo_profile = match lookup_var(vars, EnvKey::CargoProfile) {
            Some(v) => v,
            None => return Err(EnvError::Missing(EnvKey::CargoProfile)),
        };
        let rustc_semver = match lookup_var(vars, EnvKey::RustcSemver) {
            Some(v) => v,
            None => return Err(EnvError::Missing(EnvKey::RustcSemver)),
        };
        let rustc_llvm = match lookup_var(vars, EnvKey::RustcLlvm) {
            Some(v) => v,
            None => return Err(EnvError::Missing(EnvKey::RustcLlvm)),
        };
        let rustc_sha = match lookup_var(vars, EnvKey::RustcSha) {
            Some(v) => v,
            None => return Err(EnvError::Missing(EnvKey::RustcSha)),
        };
        let dirty = if git_dirty == String::from_str("true") {
            true
        } else if git_dirty == String::from_str("false") {
            false
        } else {
            return Err(EnvError::BadDirty);
        };
        Ok(
            Version {
                name: String::from_str(name),
                semver: String::from_str(semver),
                git_sha,
                git_datetime,
                git_dirty: dirty,
                cargo_features,
                cargo_profile,
                rustc_semver,
                rustc_llvm,
                rustc_sha,
            },
        )
    }
}

/// The (name, value) pairs that a list of directives sets.
pub open spec fn read_directives(lines: Seq<Seq<char>>) -> Seq<(Seq<char>, Seq<char>)> {
    lines.map_values(|l: Seq<char>| parse_directive_spec(l)->0)
}

proof fn lemma_directive_parses(key: Seq<char>, value: Seq<char>)
    requires
        !key.contains('='),
    ensures
        parse_directive_spec(directive(key, value)) == Some((key, value)),
{
    let line = directive(key, value);
    let p = directive_prefix();
    assert(line.subrange(0, p.len() as int) =~= p);
    assert(line.skip(p.len() as int) =~= key + seq!['='] + value);
    lemma_split_once_joined(key, '=', value);
}

/// Round trip: every directive that propagates a record reads back as its
/// variable's name and value, and the environment so set, with the record's
/// name and semver, rebuilds the same record.
pub proof fn lemma_env_round_trip(v: VersionView)
    ensures
        forall|i: int|
            0 <= i < directives(v).len() ==> #[trigger] parse_directive_spec(directives(v)[i])
                == Some(env_pairs(v)[i]),
        from_env_spec(v.name, v.semver, read_directives(directives(v))) == Ok::<
            VersionView,
            EnvError,
        >(v),
{
    lemma_key_names();
    let pairs = env_pairs(v);
    assert forall|i: int| 0 <= i < directives(v).len() implies #[trigger] parse_directive_spec(
        directives(v)[i],
    ) == Some(env_pairs(v)[i]) by {
        lemma_directive_parses(pairs[i].0, pairs[i].1);
    }
    assert(read_directives(directives(v)) =~= pairs);
    let keys = env_keys();
    assert forall|i: int| 0 <= i < 8 implies lookup(pairs, key_name(#[trigger] keys[i])) == Some(
        field(v, keys[i]),
    ) by {
        assert forall|j: int| 0 <= j < i implies pairs[j].0 != key_name(keys[i]) by {
            assert(keys[j] != keys[i]);
        }
        lemma_lookup_at(pairs, key_name(keys[i]), i);
    }
    assert(lookup(pairs, key_name(keys[0])) == Some(field(v, keys[0])));
    assert(lookup(pairs, key_name(keys[1])) == Some(field(v, keys[1])));
    assert(lookup(pairs, key_name(keys[2])) == Some(field(v, keys[2])));
    assert(lookup(pairs, key_name(keys[3])) == Some(field(v, keys[3])));
    assert(lookup(pairs, key_name(keys[4])) == Some(field(v, keys[4])));
    assert(lookup(pairs, key_name(keys[5])) == Some(field(v, keys[5])));
    assert(lookup(pairs, key_name(keys[6])) == Some(field(v, keys[6])));
    assert(lookup(pairs, key_name(keys[7])) == Some(field(v, keys[7])));
    reveal_with_fuel(first_missing, 9);
    assert(keys.skip(1).skip(1).skip(1).skip(1).skip(1).skip(1).skip(1).skip(1).len() == 0);
    assert(first_missing(pairs, keys) is None);
    reveal_strlit("true");
    reveal_strlit("false");
    assert("true"@.len() != "false"@.len());
    assert(parse_bool(bool_text(v.git_dirty)) == Some(v.git_dirty));
}

} // verus!
