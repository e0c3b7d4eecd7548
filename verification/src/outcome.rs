use vstd::prelude::*;

verus! {

/// The outcome of one launch of an external process, as the caller
/// observed it: the process ran and exited zero, ran and exited
/// non-zero, or could not be started at all.
pub enum CmdOutcome {
    /// The process exited successfully; `stdout` is its captured
    /// standard output.
    Success { stdout: String },
    /// The process exited with a non-zero status; `stderr` is its
    /// captured standard error.
    ExitFailure { stderr: String },
    /// The process could not be launched; `message` is the launch
    /// error's description.
    LaunchFailure { message: String },
}

} // verus!
