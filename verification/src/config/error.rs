//! Configuration error type.

use vstd::prelude::*;

use crate::validate::ValidateError;

verus! {

/// Why a configuration could not be had. File and parse failures carry
/// the path and the reader's message as text.
#[derive(Debug)]
pub enum ConfigError {
    Io(String, String),
    Parse(String, String),
    ProfileNotFound(String),
    MissingEnv(&'static str),
    InvalidAuthMethod(String),
    NoConfigDir,
    Validate(ValidateError),
}

} // verus!
