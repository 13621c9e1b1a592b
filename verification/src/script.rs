//! Script-path validation: the path must be non-empty and denote an
//! existing regular file, and is resolved to a canonical absolute form.

use vstd::prelude::*;
use crate::fs_probe::{probe_canonicalize, probe_exists, probe_is_file};

verus! {

/// What a filesystem probe reported for a path.
#[derive(Debug)]
pub enum FileStatus {
    /// Nothing lives at the path.
    Missing,
    /// Something lives there, but it is not a regular file.
    NotRegular,
    /// The path names an existing regular file.
    Regular,
}

/// Why a script path was rejected.
#[derive(Debug)]
pub enum ScriptValidationError {
    /// The path string is empty.
    EmptyPath,
    /// Nothing lives at the path.
    NotFound,
    /// The path exists but does not name a regular file.
    NotAFile,
    /// The path could not be resolved to a canonical absolute form.
    ResolutionFailed,
}

/// A script path that passed validation: at validation time the path named
/// an existing regular file, and this is its canonical absolute form.
#[derive(Debug)]
pub struct ValidatedScript {
    path: String,
}

impl View for ValidatedScript {
    type V = Seq<char>;

    closed spec fn view(&self) -> Seq<char> {
        self.path@
    }
}

impl ValidatedScript {
    /// The canonical absolute path.
    pub fn path(&self) -> (r: &String)
        ensures
            r@ == self@,
    {
        &self.path
    }
}

/// The whole validator contract: `r` is the verdict assigned to a path for
/// which the filesystem reported `status` and, for a regular file, the
/// canonical form `canonical`. The checks run in order: empty path first,
/// then existence, then file kind, then resolution.
pub open spec fn script_verdict(
    path: Seq<char>,
    status: FileStatus,
    canonical: Option<Seq<char>>,
    r: Result<ValidatedScript, ScriptValidationError>,
) -> bool {
    if path.len() == 0 {
        r == Err::<ValidatedScript, _>(ScriptValidationError::EmptyPath)
    } else {
        match status {
            FileStatus::Missing => r == Err::<ValidatedScript, _>(ScriptValidationError::NotFound),
            FileStatus::NotRegular => r == Err::<ValidatedScript, _>(
                ScriptValidationError::NotAFile,
            ),
            FileStatus::Regular => match canonical {
                None => r == Err::<ValidatedScript, _>(ScriptValidationError::ResolutionFailed),
                Some(c) => r is Ok && r->Ok_0@ == c,
            },
        }
    }
}

/// Assigns the verdict for a path given the probe answers: rejects an empty
/// path, a missing path, and a path that is not a regular file, in that
/// order; otherwise succeeds exactly when the path resolved, carrying its
/// canonical form.
pub fn classify_script_path(
    script_path: &str,
    status: FileStatus,
    canonical: Option<String>,
) -> (r: Result<ValidatedScript, ScriptValidationError>)
    ensures
        script_verdict(script_path@, status, canonical.deep_view(), r),
{
    if script_path.is_empty() {
        return Err(ScriptValidationError::EmptyPath);
    }
    match status {
        FileStatus::Missing => Err(ScriptValidationError::NotFound),
        FileStatus::NotRegular => Err(ScriptValidationError::NotAFile),
        FileStatus::Regular => match canonical {
            None => Err(ScriptValidationError::ResolutionFailed),
            Some(c) => Ok(ValidatedScript { path: c }),
        },
    }
}

/// Validates a script path against the live filesystem. An empty path is
/// rejected before any probe runs; otherwise the path is probed for
/// existence, then for being a regular file, then canonicalized, and the
/// verdict follows `script_verdict` for whatever the probes answered. What
/// the probes answer depends on the disk, so beyond the empty-path case the
/// contract pins nothing; `classify_script_path` carries the verified
/// verdict logic for every possible answer.
pub fn validate_script_path(script_path: &str) -> (r: Result<ValidatedScript, ScriptValidationError>)
    ensures
        script_path@.len() == 0 <==> r == Err::<ValidatedScript, _>(
            ScriptValidationError::EmptyPath,
        ),
{
    if script_path.is_empty() {
        return Err(ScriptValidationError::EmptyPath);
    }
    let status = if !probe_exists(script_path) {
        FileStatus::Missing
    } else if !probe_is_file(script_path) {
        FileStatus::NotRegular
    } else {
        FileStatus::Regular
    };
    let canonical = match status {
        FileStatus::Regular => probe_canonicalize(script_path),
        _ => None,
    };
    classify_script_path(script_path, status, canonical)
}

/// Script validation decides the same way every time: for one path and one
/// set of probe answers the contract admits exactly one verdict, equal
/// rejections and an equal canonical path. With an unchanged filesystem,
/// two runs yield identical `ValidatedScript` values.
pub proof fn lemma_script_verdict_deterministic(
    path: Seq<char>,
    status: FileStatus,
    canonical: Option<Seq<char>>,
    r1: Result<ValidatedScript, ScriptValidationError>,
    r2: Result<ValidatedScript, ScriptValidationError>,
)
    requires
        script_verdict(path, status, canonical, r1),
        script_verdict(path, status, canonical, r2),
    ensures
        r1 is Ok <==> r2 is Ok,
        (r1 is Ok && r2 is Ok) ==> r1->Ok_0@ == r2->Ok_0@,
        r1 is Err ==> r1 == r2,
{
}

} // verus!
