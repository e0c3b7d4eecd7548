use vstd::prelude::*;

use crate::outcome::CmdOutcome;

verus! {

/// What the command forwarder replies for a given process outcome: the
/// captured standard output on success, otherwise "Error: " followed
/// by the captured standard error or by the launch error's
/// description. Success and failure are told apart only by the shape
/// of this one string.
pub open spec fn response_of(outcome: CmdOutcome) -> Seq<char> {
    match outcome {
        CmdOutcome::Success { stdout } => stdout@,
        CmdOutcome::ExitFailure { stderr } => "Error: "@ + stderr@,
        CmdOutcome::LaunchFailure { message } => "Error: "@ + message@,
    }
}

/// The fixed reply when the tool's binary could not be located.
pub open spec fn not_found_response() -> Seq<char> {
    "Error: Ollama not found"@
}

/// Renders one process outcome as the forwarder's reply text.
pub fn command_response(outcome: &CmdOutcome) -> (r: String)
    ensures
        r@ == response_of(*outcome),
{
    match outcome {
        CmdOutcome::Success { stdout } => stdout.clone(),
        CmdOutcome::ExitFailure { stderr } => {
            let mut r = String::from_str("Error: ");
            r.append(stderr.as_str());
            r
        },
        CmdOutcome::LaunchFailure { message } => {
            let mut r = String::from_str("Error: ");
            r.append(message.as_str());
            r
        },
    }
}

/// The forwarder's reply. `outcome` is `None` when the binary was not
/// located (so no process was launched), and `Some` of the launched
/// process's outcome otherwise.
pub fn forward_response(outcome: &Option<CmdOutcome>) -> (r: String)
    ensures
        outcome is None ==> r@ == not_found_response(),
        outcome matches Some(o) ==> r@ == response_of(*o),
{
    match outcome {
        None => String::from_str("Error: Ollama not found"),
        Some(o) => command_response(o),
    }
}

} // verus!
