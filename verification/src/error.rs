//! Error types of the tool contract and of the tool registry.
use vstd::prelude::*;

verus! {

/// Failures reported by a tool while it mounts or unmounts.
#[derive(Debug)]
pub enum ToolError {
    Mount(String),
    Unmount(String),
}

/// `std::io::Error`, carried when a registry file cannot be read.
#[verifier::external_type_specification]
#[verifier::external_body]
pub struct ExIoError(std::io::Error);

/// `toml::de::Error`, carried when a registry file is not valid TOML.
#[verifier::external_type_specification]
#[verifier::external_body]
pub struct ExTomlDeError(toml::de::Error);

/// Why a tool registry could not be loaded.
#[derive(Debug)]
pub enum RegistryError {
    ReadFile { path: String, source: std::io::Error },
    ParseToml(toml::de::Error),
    Invalid(String),
}

/// `r` is success exactly when `problem` is `None`, and otherwise the
/// `Invalid` error carrying the problem's message.
pub open spec fn reports(r: Result<(), RegistryError>, problem: Option<Seq<char>>) -> bool {
    match problem {
        None => r is Ok,
        Some(m) => r matches Err(RegistryError::Invalid(s)) && s@ == m,
    }
}

} // verus!
