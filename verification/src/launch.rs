//! Launch-side logic: the argument vector handed to the interpreter, and
//! the mapping from the child's outcome to this process's own exit code.
//! The arguments stay discrete argv entries end to end — they are never
//! joined into a shell command line.

use vstd::prelude::*;
use crate::params::SanitizedParameters;
use crate::script::ValidatedScript;

verus! {

/// The launch failed: either the child could not be started, or it ran and
/// exited non-zero with diagnostic text on its standard error.
#[derive(Debug)]
pub enum ExecutionError {
    /// Spawning the child failed; `detail` carries the operating system's
    /// description of the fault.
    SpawnFailed { detail: String },
    /// The child ran and exited non-zero, and wrote `stderr` as diagnostics.
    ChildFailed { exit_code: i32, stderr: String },
}

/// The fixed flags prepended before the script path, in their fixed order:
/// non-interactive mode, no profile initialization, bypassed execution
/// policy, then the flag introducing the script file.
pub open spec fn fixed_flags() -> Seq<Seq<char>> {
    seq!["-NonInteractive"@, "-NoProfile"@, "-ExecutionPolicy"@, "Bypass"@, "-File"@]
}

/// The views of a parameter sequence, element by element.
pub open spec fn views_of(ps: Seq<String>) -> Seq<Seq<char>> {
    ps.map_values(|s: String| s@)
}

/// The exact argument vector the interpreter is started with: the fixed
/// flags, then the validated script path, then each sanitized parameter as
/// one discrete entry, in their original order.
pub open spec fn interpreter_argv(script: Seq<char>, params: Seq<Seq<char>>) -> Seq<Seq<char>> {
    fixed_flags().push(script) + params
}

/// Builds the argument vector for the interpreter: fixed flags, script
/// path, then the sanitized parameters, each as one discrete argv entry.
pub fn build_interpreter_argv(script: &ValidatedScript, params: &SanitizedParameters) -> (r: Vec<
    String,
>)
    ensures
        r.deep_view() == interpreter_argv(script@, views_of(params@)),
{
    let mut argv: Vec<String> = Vec::new();
    argv.push(String::from_str("-NonInteractive"));
    argv.push(String::from_str("-NoProfile"));
    argv.push(String::from_str("-ExecutionPolicy"));
    argv.push(String::from_str("Bypass"));
    argv.push(String::from_str("-File"));
    argv.push(script.path().clone());
    proof {
        assert(argv.deep_view() =~= fixed_flags().push(script@));
    }
    let list = params.list();
    let ghost head = fixed_flags().push(script@);
    let mut i: usize = 0;
    while i < list.len()
        invariant
            list@ == params@,
            i <= list@.len(),
            argv.deep_view() =~= head + views_of(list@.take(i as int)),
        decreases list@.len() - i,
    {
        let ghost prior = argv.deep_view();
        argv.push(list[i].clone());
        proof {
            assert(argv.deep_view() =~= prior.push(list@[i as int]@));
            assert(views_of(list@.take(i + 1)) =~= views_of(list@.take(i as int)).push(
                list@[i as int]@,
            ));
            assert(argv.deep_view() =~= head + views_of(list@.take(i + 1)));
        }
        i += 1;
    }
    proof {
        assert(list@.take(list@.len() as int) =~= list@);
        assert(argv.deep_view() =~= interpreter_argv(script@, views_of(params@)));
    }
    argv
}

/// The exit code attributed to the child: its own code when it terminated
/// normally, and 1 when the operating system reports none (the child was
/// killed by a signal or ended abnormally).
pub open spec fn effective_exit_code(code: Option<i32>) -> int {
    match code {
        Some(c) => c as int,
        None => 1,
    }
}

/// Maps the child's reported exit status and captured standard error to
/// this process's outcome: the effective exit code passes through, except
/// that a non-zero exit with diagnostic text becomes an `ExecutionError`
/// carrying that text.
pub fn map_child_outcome(code: Option<i32>, stderr: String) -> (r: Result<i32, ExecutionError>)
    ensures
        r is Ok <==> (effective_exit_code(code) == 0 || stderr@.len() == 0),
        r matches Ok(c) ==> c as int == effective_exit_code(code),
        r matches Err(e) ==> {
            &&& e matches ExecutionError::ChildFailed { exit_code, stderr: s }
            &&& exit_code as int == effective_exit_code(code)
            &&& exit_code != 0
            &&& s == stderr
            &&& s@.len() > 0
        },
{
    let exit_code = match code {
        Some(c) => c,
        None => 1,
    };
    if exit_code != 0 && stderr.as_str().unicode_len() > 0 {
        Err(ExecutionError::ChildFailed { exit_code, stderr })
    } else {
        Ok(exit_code)
    }
}

} // verus!
