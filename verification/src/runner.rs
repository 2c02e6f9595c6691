//! The build runner's part that computes: the command that generates the
//! documentation, and what its exit means.

use crate::coordinator::BuildFailed;
use vstd::prelude::*;
use vstd::string::StringExecFns;

verus! {

/// The command line that generates the documentation of `package`: the
/// program first, then its arguments. It documents that one package,
/// without its dependencies, private items included.
pub open spec fn doc_command_of(package: Seq<char>) -> Seq<Seq<char>> {
    seq![
        "cargo"@,
        "doc"@,
        "--no-deps"@,
        "--document-private-items"@,
        "--package"@,
        package,
    ]
}

/// The command line that generates the documentation of `package`, to be
/// run in the project's root directory.
pub fn doc_command(package: &str) -> (command: Vec<String>)
    ensures
        command.deep_view() == doc_command_of(package@),
{
    let mut command: Vec<String> = Vec::new();
    command.push(String::from_str("cargo"));
    command.push(String::from_str("doc"));
    command.push(String::from_str("--no-deps"));
    command.push(String::from_str("--document-private-items"));
    command.push(String::from_str("--package"));
    command.push(String::from_str(package));
    command
}

/// Judges a run of the generator: it succeeded only if the process was
/// launched and exited successfully. `exit_success` is read only where the
/// process was launched.
pub fn build_outcome(launched: bool, exit_success: bool) -> (outcome: Result<(), BuildFailed>)
    ensures
        outcome is Ok <==> launched && exit_success,
        outcome == Err::<(), BuildFailed>(BuildFailed::NotLaunched) <==> !launched,
        outcome == Err::<(), BuildFailed>(BuildFailed::ExitedWithError) <==> launched
            && !exit_success,
{
    if !launched {
        Err(BuildFailed::NotLaunched)
    } else if !exit_success {
        Err(BuildFailed::ExitedWithError)
    } else {
        Ok(())
    }
}

} // verus!
