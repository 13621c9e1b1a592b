//! The validation-and-safe-invocation pipeline: argument parsing, script
//! validation, parameter sanitization and interpreter location, each stage
//! short-circuiting on failure. The result is a complete launch plan; only
//! the process-creation layer outside this library consumes it, and it
//! spawns nothing unless every stage here succeeded.

use vstd::prelude::*;
use crate::args::{invocation_well_formed, parse_invocation, UsageError};
use crate::interpreter::{get_powershell_path, interpreter_location, InterpreterNotFoundError, InterpreterPath};
use crate::launch::{build_interpreter_argv, interpreter_argv, views_of};
use crate::params::{parameter_verdict, params_valid, sanitize_parameters, ParameterValidationError};
use crate::script::{validate_script_path, ScriptValidationError, ValidatedScript};

verus! {

/// The stage at which the pipeline stopped, with that stage's error. Every
/// failure is terminal: nothing is caught and retried.
#[derive(Debug)]
pub enum LaunchError {
    /// Malformed invocation.
    Usage(UsageError),
    /// The script path was rejected.
    Script(ScriptValidationError),
    /// A parameter, or the parameter batch, was rejected.
    Parameter(ParameterValidationError),
    /// The trusted interpreter is missing at its fixed path.
    Interpreter(InterpreterNotFoundError),
}

/// Everything the process-creation layer needs: the fixed interpreter path,
/// the validated script, and the complete argument vector.
#[derive(Debug)]
pub struct LaunchPlan {
    pub interpreter: InterpreterPath,
    pub script: ValidatedScript,
    pub argv: Vec<String>,
}

/// Runs the whole validation pipeline over a raw invocation. A plan comes
/// back only when every stage accepted; it carries the fixed interpreter
/// location and the exact argument vector — fixed flags, the canonical
/// script path, then the parameters unchanged and in order, each one a
/// discrete argv entry. Each failure names the stage that rejected, and a
/// missing interpreter is reported only after all input checks passed, so
/// no spawn is ever attempted for it.
pub fn prepare_launch(args: &Vec<String>) -> (r: Result<LaunchPlan, LaunchError>)
    ensures
        r matches Err(LaunchError::Usage(_)) <==> !invocation_well_formed(args@),
        r matches Ok(plan) ==> {
            &&& invocation_well_formed(args@)
            &&& params_valid(args@.skip(3))
            &&& plan.interpreter@ == interpreter_location()
            &&& plan.argv.deep_view() == interpreter_argv(plan.script@, views_of(args@.skip(3)))
        },
        r == Err::<LaunchPlan, _>(LaunchError::Script(ScriptValidationError::EmptyPath)) <==> (
        invocation_well_formed(args@) && args@[2]@.len() == 0),
        r matches Err(LaunchError::Script(_)) ==> invocation_well_formed(args@),
        r matches Err(LaunchError::Parameter(e)) ==> {
            &&& invocation_well_formed(args@)
            &&& args@[2]@.len() > 0
            &&& parameter_verdict(args@.skip(3), Err(e))
        },
        r matches Err(LaunchError::Interpreter(_)) ==> {
            &&& invocation_well_formed(args@)
            &&& args@[2]@.len() > 0
            &&& params_valid(args@.skip(3))
        },
{
    let parsed = match parse_invocation(args) {
        Ok(p) => p,
        Err(e) => {
            return Err(LaunchError::Usage(e));
        },
    };
    let script = match validate_script_path(parsed.script_path.as_str()) {
        Ok(s) => s,
        Err(e) => {
            return Err(LaunchError::Script(e));
        },
    };
    let sanitized = match sanitize_parameters(parsed.parameters) {
        Ok(s) => s,
        Err(e) => {
            return Err(LaunchError::Parameter(e));
        },
    };
    let interpreter = match get_powershell_path() {
        Ok(p) => p,
        Err(e) => {
            return Err(LaunchError::Interpreter(e));
        },
    };
    let argv = build_interpreter_argv(&script, &sanitized);
    Ok(LaunchPlan { interpreter, script, argv })
}

} // verus!
