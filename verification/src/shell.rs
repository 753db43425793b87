//! What a finished shell command hands back to the library.
use vstd::prelude::*;

verus! {

/// The exit status and captured output of a command that ran to completion.
#[derive(Debug)]
pub struct ShellOutput {
    pub success: bool,
    pub stdout: String,
    pub stderr: String,
}

/// Plain-value view of a `ShellOutput`.
pub struct ShellOutputView {
    pub success: bool,
    pub stdout: Seq<char>,
    pub stderr: Seq<char>,
}

impl View for ShellOutput {
    type V = ShellOutputView;

    open spec fn view(&self) -> ShellOutputView {
        ShellOutputView { success: self.success, stdout: self.stdout@, stderr: self.stderr@ }
    }
}

impl ShellOutput {
    /// Builds an output record.
    pub fn new(success: bool, stdout: String, stderr: String) -> (r: ShellOutput)
        ensures
            r@ == (ShellOutputView { success, stdout: stdout@, stderr: stderr@ }),
    {
        ShellOutput { success, stdout, stderr }
    }
}

/// The view of a command's outcome: its output, or the text of the error
/// that kept it from running.
pub open spec fn run_view(run: &Result<ShellOutput, String>) -> Result<ShellOutputView, Seq<char>> {
    match run {
        Ok(out) => Ok(out@),
        Err(e) => Err(e@),
    }
}

} // verus!
