//! Judging what the graphics context reports after compiling a shader or linking
//! a program.

use vstd::prelude::*;
use vstd::string::*;

verus! {

/// What the graphics context reported about one shader or one program: whether the
/// object could be created at all, the status flag read back after compiling or
/// linking, and the diagnostic text, where the context gave one.
pub struct BuildReport {
    pub created: bool,
    pub status: Option<bool>,
    pub info_log: Option<String>,
}

/// Whether a report stands for a usable object: it was created and its status flag
/// was read as set.
pub open spec fn succeeded(report: BuildReport) -> bool {
    report.created && report.status == Some(true)
}

/// The text of the error that a failed report gives rise to: a fixed message where
/// the object was never created, else the context's own diagnostic, else `fallback`.
pub open spec fn diagnostic(report: BuildReport, fallback: Seq<char>) -> Seq<char> {
    if !report.created {
        "Unable to create shader object"@
    } else {
        match report.info_log {
            Some(log) => log@,
            None => fallback,
        }
    }
}

/// Accepts a report that stands for a usable object, and turns any other into its
/// diagnostic.
fn judge(report: BuildReport, fallback: &str) -> (r: Result<(), String>)
    ensures
        succeeded(report) <==> r is Ok,
        r matches Err(text) ==> text@ == diagnostic(report, fallback@),
{
    if !report.created {
        return Err("Unable to create shader object".to_string());
    }
    let compiled = match report.status {
        Some(flag) => flag,
        None => false,
    };
    if compiled {
        Ok(())
    } else {
        match report.info_log {
            Some(log) => Err(log),
            None => Err(fallback.to_string()),
        }
    }
}

/// Decides whether a shader was compiled. A failure carries the compiler's
/// diagnostic text.
pub fn compile_shader(report: BuildReport) -> (r: Result<(), String>)
    ensures
        succeeded(report) <==> r is Ok,
        r matches Err(text) ==> text@ == diagnostic(report, "Unknown error creating shader"@),
{
    judge(report, "Unknown error creating shader")
}

/// Decides whether a program was linked. A failure carries the linker's
/// diagnostic text.
pub fn link_program(report: BuildReport) -> (r: Result<(), String>)
    ensures
        succeeded(report) <==> r is Ok,
        r matches Err(text) ==> text@ == diagnostic(report, "Unknown error creating program object"@),
{
    judge(report, "Unknown error creating program object")
}

} // verus!
