//! What can go wrong while resolving a launch or a configuration.

use vstd::prelude::*;

verus! {

/// Why a launch or a configuration could not be resolved.
#[derive(Clone, Debug)]
pub enum LaunchError {
    /// Neither the settings nor a search of the path gave the server binary.
    ExecutableNotFound,
    /// `python.pythonPath` is present but is not a string.
    MalformedPythonPath,
    /// The root joined with `python.pythonPath` is no valid string.
    UnencodablePath { root: String, python_path: String },
}

} // verus!
