use crate::exec::{ExecError, ExecOutput};
use vstd::prelude::*;

verus! {

/// Whether a finished command is treated as a failure, and why.
#[derive(Clone, Copy, Debug, PartialEq, Eq, Structural)]
pub enum Verdict {
    /// The command counts as successful.
    Success,
    /// Bytes were written to stderr while `failOnStdErr` was set.
    StdErrProduced,
    /// The command exited with a nonzero code that was not ignored.
    NonZeroExit,
}

/// The verdict table: stderr activity is checked first, then the exit code.
pub open spec fn verdict_spec(
    exit_code: int,
    stderr_seen: bool,
    fail_on_std_err: bool,
    ignore_return_code: bool,
) -> Verdict {
    if fail_on_std_err && stderr_seen {
        Verdict::StdErrProduced
    } else if exit_code != 0 && !ignore_return_code {
        Verdict::NonZeroExit
    } else {
        Verdict::Success
    }
}

/// Combines the exit code, whether stderr saw any bytes, and the failure
/// policy into a verdict.
pub fn evaluate_policy(
    exit_code: isize,
    stderr_seen: bool,
    fail_on_std_err: bool,
    ignore_return_code: bool,
) -> (r: Verdict)
    ensures
        r == verdict_spec(exit_code as int, stderr_seen, fail_on_std_err, ignore_return_code),
{
    if fail_on_std_err && stderr_seen {
        Verdict::StdErrProduced
    } else if exit_code != 0 && !ignore_return_code {
        Verdict::NonZeroExit
    } else {
        Verdict::Success
    }
}

/// The outcome that the verdict table gives for a finished execution.
pub open spec fn outcome_spec(
    exit_code: int,
    stdout: Seq<char>,
    stderr: Seq<char>,
    stderr_seen: bool,
    fail_on_std_err: bool,
    ignore_return_code: bool,
    r: Result<ExecOutput, ExecError>,
) -> bool {
    match verdict_spec(exit_code, stderr_seen, fail_on_std_err, ignore_return_code) {
        Verdict::StdErrProduced => r matches Err(ExecError::StdErrProduced { stderr: e }) && e@
            == stderr,
        Verdict::NonZeroExit => r matches Err(ExecError::NonZeroExit { exit_code: c, stderr: e })
            && c == exit_code && e@ == stderr,
        Verdict::Success => r matches Ok(o) && o.exitCode == exit_code && o.stdout@ == stdout
            && o.stderr@ == stderr,
    }
}

/// Turns a finished execution into the caller's result: the captured output
/// on success, or the failure that the verdict names with what it carries.
pub fn resolve_outcome(
    exit_code: isize,
    stdout: String,
    stderr: String,
    stderr_seen: bool,
    fail_on_std_err: bool,
    ignore_return_code: bool,
) -> (r: Result<ExecOutput, ExecError>)
    ensures
        outcome_spec(
            exit_code as int,
            stdout@,
            stderr@,
            stderr_seen,
            fail_on_std_err,
            ignore_return_code,
            r,
        ),
{
    match evaluate_policy(exit_code, stderr_seen, fail_on_std_err, ignore_return_code) {
        Verdict::StdErrProduced => Err(ExecError::StdErrProduced { stderr }),
        Verdict::NonZeroExit => Err(ExecError::NonZeroExit { exit_code, stderr }),
        Verdict::Success => Ok(ExecOutput { exitCode: exit_code, stdout, stderr }),
    }
}

/// Policy precedence: output on stderr under `failOnStdErr` wins over any
/// exit code; otherwise a nonzero code fails unless ignored; else success.
pub proof fn law_policy_precedence(
    exit_code: int,
    stderr_seen: bool,
    fail_on_std_err: bool,
    ignore_return_code: bool,
)
    ensures
        fail_on_std_err && stderr_seen ==> verdict_spec(
            exit_code,
            stderr_seen,
            fail_on_std_err,
            ignore_return_code,
        ) == Verdict::StdErrProduced,
        !(fail_on_std_err && stderr_seen) && exit_code != 0 && !ignore_return_code
            ==> verdict_spec(exit_code, stderr_seen, fail_on_std_err, ignore_return_code)
            == Verdict::NonZeroExit,
        !(fail_on_std_err && stderr_seen) && (exit_code == 0 || ignore_return_code)
            ==> verdict_spec(exit_code, stderr_seen, fail_on_std_err, ignore_return_code)
            == Verdict::Success,
{
}

/// Ignoring the return code never yields a nonzero-exit failure, and a
/// successful result still carries the true exit code.
pub proof fn law_ignore_flag(
    exit_code: int,
    stdout: Seq<char>,
    stderr: Seq<char>,
    stderr_seen: bool,
    fail_on_std_err: bool,
    r: Result<ExecOutput, ExecError>,
)
    requires
        outcome_spec(exit_code, stdout, stderr, stderr_seen, fail_on_std_err, true, r),
    ensures
        !(r matches Err(ExecError::NonZeroExit { .. })),
        r matches Ok(o) ==> o.exitCode == exit_code,
        !(fail_on_std_err && stderr_seen) ==> r is Ok,
{
}

} // verus!
