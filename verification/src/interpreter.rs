//! Interpreter location: the trusted interpreter lives at one fixed system
//! path, checked for existence at call time. No user- or
//! environment-controlled search path is ever consulted, so a manipulated
//! lookup order cannot substitute another binary.

use vstd::prelude::*;
use crate::fs_probe::probe_exists;

verus! {

/// The trusted interpreter is missing at its fixed path: an installation
/// fault of the environment, not a fault of the user input.
#[derive(Debug)]
pub struct InterpreterNotFoundError;

/// The fixed, non-configurable location of the trusted interpreter.
pub open spec fn interpreter_location() -> Seq<char> {
    "C:\\Windows\\System32\\WindowsPowerShell\\v1.0\\powershell.exe"@
}

/// The interpreter path, confirmed to exist at lookup time. Values of this
/// type always carry the fixed location: no other path can be launched.
#[derive(Debug)]
pub struct InterpreterPath {
    path: String,
}

impl View for InterpreterPath {
    type V = Seq<char>;

    closed spec fn view(&self) -> Seq<char> {
        self.path@
    }
}

impl InterpreterPath {
    /// The fixed interpreter path.
    pub fn path(&self) -> (r: &String)
        ensures
            r@ == self@,
    {
        &self.path
    }
}

/// Resolves the trusted interpreter to its fixed location and confirms it
/// exists there now. Success carries exactly the fixed path — whatever the
/// filesystem answers, no other path is ever produced.
pub fn get_powershell_path() -> (r: Result<InterpreterPath, InterpreterNotFoundError>)
    ensures
        r matches Ok(p) ==> p@ == interpreter_location(),
{
    let path = String::from_str(
        "C:\\Windows\\System32\\WindowsPowerShell\\v1.0\\powershell.exe",
    );
    if probe_exists(path.as_str()) {
        Ok(InterpreterPath { path })
    } else {
        Err(InterpreterNotFoundError)
    }
}

} // verus!
