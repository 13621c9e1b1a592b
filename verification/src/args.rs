//! Argument parsing: splits the raw invocation into a script path and the
//! trailing parameters, rejecting malformed invocations.

use vstd::prelude::*;

verus! {

/// Malformed invocation: too few tokens, or the flag token is wrong.
#[derive(Debug)]
pub struct UsageError;

/// The invocation split into its parts: the script path (token 2) and the
/// parameters (tokens 3 onward, in their original order).
#[derive(Debug)]
pub struct ParsedRequest {
    pub script_path: String,
    pub parameters: Vec<String>,
}

/// The Unicode lowercase form of a character sequence, as
/// `str::to_lowercase` computes it. The result depends on the characters
/// alone, so it is given a name rather than written out.
pub uninterp spec fn lower_of(s: Seq<char>) -> Seq<char>;

/// Relies on `str::to_lowercase`: returns the Unicode lowercase form of the
/// string, a function of its characters alone.
#[verifier::external_body]
fn to_lowercase(s: &str) -> (r: String)
    ensures
        r@ == lower_of(s@),
{
    s.to_lowercase()
}

/// The flag literal that token 1 must equal after lowercasing.
pub open spec fn expected_flag() -> Seq<char> {
    "-script"@
}

/// A well-formed invocation: at least three tokens (program name, flag,
/// script path), and token 1 equals the flag literal case-insensitively.
pub open spec fn invocation_well_formed(args: Seq<String>) -> bool {
    args.len() >= 3 && lower_of(args[1]@) == expected_flag()
}

/// Accepts exactly the well-formed invocations.
pub fn validate_arguments(args: &Vec<String>) -> (r: Result<(), UsageError>)
    ensures
        r is Ok <==> invocation_well_formed(args@),
        args@.len() < 3 ==> r is Err,
{
    if args.len() < 3 {
        return Err(UsageError);
    }
    let lowered = to_lowercase(args[1].as_str());
    let expected = String::from_str("-script");
    if lowered == expected {
        Ok(())
    } else {
        Err(UsageError)
    }
}

/// Splits a well-formed invocation into the script path (token 2) and the
/// parameters (tokens 3 onward, order kept); fails on any other invocation.
pub fn parse_invocation(args: &Vec<String>) -> (r: Result<ParsedRequest, UsageError>)
    ensures
        r is Ok <==> invocation_well_formed(args@),
        r matches Ok(pr) ==> {
            &&& pr.script_path == args@[2]
            &&& pr.parameters@ == args@.skip(3)
        },
{
    validate_arguments(args)?;
    let script_path = args[2].clone();
    let mut parameters: Vec<String> = Vec::new();
    let mut i: usize = 3;
    while i < args.len()
        invariant
            3 <= i <= args@.len(),
            parameters@ == args@.subrange(3, i as int),
        decreases args@.len() - i,
    {
        parameters.push(args[i].clone());
        i += 1;
    }
    proof {
        assert(args@.skip(3) =~= args@.subrange(3, args@.len() as int));
    }
    Ok(ParsedRequest { script_path, parameters })
}

/// The fixed usage text rendered on any argument-parse failure.
pub open spec fn usage_text() -> Seq<char> {
    "PS-Launcher Usage:\n\nps-launcher.exe -Script <script_path> [parameters]\n\nExamples:\n  ps-launcher.exe -Script test.ps1\n  ps-launcher.exe -Script test.ps1 -FilePath \"C:\\temp\\test.txt\"\n  ps-launcher.exe -Script test.ps1 -Name \"John Doe\" -Verbose\n\nNotes:\n- Parameters with spaces are automatically quoted\n- Dangerous characters (; & | < > ` $ etc.) are rejected\n- Returns 0 for success, 1 for errors"@
}

/// The usage message: a pure function of no input, always the same text.
pub fn show_usage() -> (r: String)
    ensures
        r@ == usage_text(),
{
    String::from_str(
        "PS-Launcher Usage:\n\nps-launcher.exe -Script <script_path> [parameters]\n\nExamples:\n  ps-launcher.exe -Script test.ps1\n  ps-launcher.exe -Script test.ps1 -FilePath \"C:\\temp\\test.txt\"\n  ps-launcher.exe -Script test.ps1 -Name \"John Doe\" -Verbose\n\nNotes:\n- Parameters with spaces are automatically quoted\n- Dangerous characters (; & | < > ` $ etc.) are rejected\n- Returns 0 for success, 1 for errors",
    )
}

/// Parsing decides the same way every time: any two results the parsing
/// contract admits for one invocation are the same verdict, with the same
/// script path and the same parameter values. Together with the parser's
/// own contract, running it twice on identical input yields identical
/// `ParsedRequest` values.
pub proof fn lemma_parse_deterministic(
    args: Seq<String>,
    r1: Result<ParsedRequest, UsageError>,
    r2: Result<ParsedRequest, UsageError>,
)
    requires
        r1 is Ok <==> invocation_well_formed(args),
        r1 matches Ok(pr) ==> pr.script_path == args[2] && pr.parameters@ == args.skip(3),
        r2 is Ok <==> invocation_well_formed(args),
        r2 matches Ok(pr) ==> pr.script_path == args[2] && pr.parameters@ == args.skip(3),
    ensures
        r1 is Ok <==> r2 is Ok,
        (r1 is Ok && r2 is Ok) ==> {
            &&& r1->Ok_0.script_path == r2->Ok_0.script_path
            &&& r1->Ok_0.parameters@ == r2->Ok_0.parameters@
        },
{
}

} // verus!
