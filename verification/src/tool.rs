use vstd::prelude::*;

use crate::error::{text_outcome, EffectorError, EffectorErrorView};
use crate::text::args_view;
use crate::trusted::{into_std, std_outcome};

verus! {

/// What running the storage tool gave: its return code, the host's word on
/// an error, and the two output streams as the bytes that were written.
#[derive(Clone, Debug, PartialEq, Eq)]
pub struct MountedBinaryOutput {
    /// 0 where the tool ran and succeeded.
    pub ret_code: i32,
    /// The error as the host describes it, where there was one.
    pub error: String,
    pub stdout: Vec<u8>,
    pub stderr: Vec<u8>,
}

/// The message of the failure that stands for output that is not UTF-8.
pub open spec fn not_utf8_message() -> Seq<char> {
    "stdout or stderr contains non valid UTF8 string"@
}

/// What a run of the tool with `cmd` comes to: the standard output of a
/// successful run, or a failure that carries `cmd` and the reason.
pub open spec fn run_outcome(cmd: Seq<Seq<char>>, output: MountedBinaryOutput) -> Result<
    Seq<char>,
    EffectorErrorView,
> {
    match std_outcome(output.ret_code, output.error@, output.stdout@, output.stderr@) {
        Some(Ok(stdout)) => Ok(stdout),
        Some(Err(message)) => Err(
            EffectorErrorView::ToolInvocationFailed { command: cmd, message },
        ),
        None => Err(
            EffectorErrorView::ToolInvocationFailed { command: cmd, message: not_utf8_message() },
        ),
    }
}

/// Reads the output that the storage tool gave when it was run with `cmd`.
/// Every failure, a return code other than 0 as well as output that is not
/// UTF-8, becomes [`EffectorError::ToolInvocationFailed`] with the command
/// that was tried.
pub fn run_ipfs(cmd: Vec<String>, output: MountedBinaryOutput) -> (res: Result<
    String,
    EffectorError,
>)
    ensures
        text_outcome(res) == run_outcome(args_view(cmd@), output),
{
    match into_std(output) {
        Some(Ok(stdout)) => Ok(stdout),
        Some(Err(message)) => Err(EffectorError::ToolInvocationFailed { command: cmd, message }),
        None => Err(
            EffectorError::ToolInvocationFailed {
                command: cmd,
                message: String::from_str("stdout or stderr contains non valid UTF8 string"),
            },
        ),
    }
}

} // verus!
