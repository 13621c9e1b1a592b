//! A constrained launcher for scripts run by a trusted interpreter.
//!
//! The launcher accepts a script path and a list of parameters, validates
//! both against a strict policy (flag parsing, script-path verification,
//! an injection-character denylist with length bounds), resolves the
//! interpreter to a fixed system location, and hands a fully built argument
//! vector to the process-creation layer. Every validation stage is a pure
//! function with a verified contract; only the filesystem probes and the
//! process spawn itself are outside the proofs.

pub mod args;
pub mod fs_probe;
pub mod interpreter;
pub mod launch;
pub mod params;
pub mod pipeline;
pub mod script;
