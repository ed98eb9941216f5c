//! Version and provenance metadata for build scripts: capture from command
//! outputs, propagation as build directives, and reconstruction from the
//! environment; plus a minimal counter contract that exercises it.
use vstd::prelude::*;

pub mod capture;
pub mod counter;
pub mod text;
pub mod version;

pub use capture::{
    cargo_features, create_version, is_cargo_feature, join_features, rustc_fields, setup_rerun,
    CaptureError, CaptureInputs, Command, CommandOutput, RustcMeta,
};
pub use counter::Counter;
pub use version::{parse_directive, set_env, EnvError, EnvKey, IVersion, InvalidKey, Version};
