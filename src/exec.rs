use std::collections::HashMap;
use vstd::prelude::*;

verus! {

/// How long to wait for the output streams to close after the process
/// exited, when the options leave it open.
pub const DEFAULT_DRAIN_GRACE_MILLIS: usize = 10000;

/// Which of the listeners of an execution the caller supplied.
#[allow(non_snake_case)]
#[derive(Clone, Copy, Debug, Default, PartialEq, Eq, Structural)]
pub struct FFIExecListeners {
    /// A listener for each chunk of stdout.
    pub stdout: bool,
    /// A listener for each chunk of stderr.
    pub stderr: bool,
    /// A listener for each line of stdout.
    pub stdline: bool,
    /// A listener for each line of stderr.
    pub errline: bool,
    /// A listener for each diagnostic line.
    pub debug: bool,
}

/// The options of one execution.
#[allow(non_snake_case)]
#[derive(Clone, Debug, Default)]
pub struct ExecOptions {
    /// Working directory; the caller's current one when absent.
    pub cwd: Option<String>,
    /// Variables laid over the inherited environment of the child.
    pub env: Option<HashMap<String, String>>,
    /// Suppresses the echo of the child's output; defaults to false.
    pub silent: Option<bool>,
    /// Passes arguments without quoting on Windows; defaults to false.
    pub windowsVerbatimArguments: Option<bool>,
    /// Fails the call when stderr saw any bytes; defaults to false.
    pub failOnStdErr: Option<bool>,
    /// Leaves a nonzero exit code to the caller; defaults to false.
    pub ignoreReturnCode: Option<bool>,
    /// Milliseconds to wait for the streams to close after the process exited.
    pub delay: Option<usize>,
    /// Bytes written to the child's stdin, which is then closed.
    pub input: Option<Vec<u8>>,
    /// The listeners supplied; none when absent.
    pub listeners: Option<FFIExecListeners>,
}

/// The full result of an execution.
#[allow(non_snake_case)]
#[derive(Clone, Debug, Default, PartialEq, Eq)]
pub struct ExecOutput {
    /// The exit code of the process.
    pub exitCode: isize,
    /// Everything the process wrote to stdout.
    pub stdout: String,
    /// Everything the process wrote to stderr.
    pub stderr: String,
}

/// Why an execution failed.
#[derive(Clone, Debug, PartialEq, Eq)]
pub enum ExecError {
    /// The process could not be started.
    LaunchError(String),
    /// stderr saw bytes while `failOnStdErr` was set; carries stderr.
    StdErrProduced { stderr: String },
    /// The exit code was nonzero and not ignored; carries it and stderr.
    NonZeroExit { exit_code: isize, stderr: String },
    /// Reading or writing a pipe failed.
    IOError(String),
}

/// What to run: a program and its arguments, passed without a shell.
#[derive(Clone, Debug, PartialEq, Eq)]
pub struct CommandSpec {
    /// The program; never empty.
    pub program: String,
    /// The arguments, each passed as it is.
    pub args: Vec<String>,
}

impl CommandSpec {
    /// A command for `program` with `args`; none when the program is empty.
    pub fn new(program: String, args: Vec<String>) -> (r: Option<CommandSpec>)
        ensures
            program@.len() == 0 <==> r is None,
            r matches Some(c) ==> c.program == program && c.args == args,
    {
        if program.as_str().is_empty() {
            None
        } else {
            Some(CommandSpec { program, args })
        }
    }
}

/// An optional flag, or its default when absent.
pub open spec fn flag_or(v: Option<bool>, d: bool) -> bool {
    match v {
        Some(b) => b,
        None => d,
    }
}

impl ExecOptions {
    /// The grace period in effect.
    pub open spec fn drain_grace_spec(&self) -> usize {
        match self.delay {
            Some(d) => d,
            None => DEFAULT_DRAIN_GRACE_MILLIS,
        }
    }

    /// Whether the child's output is echoed.
    pub fn is_silent(&self) -> (r: bool)
        ensures
            r == flag_or(self.silent, false),
    {
        match self.silent {
            Some(b) => b,
            None => false,
        }
    }

    /// Whether output on stderr fails the call.
    pub fn fails_on_std_err(&self) -> (r: bool)
        ensures
            r == flag_or(self.failOnStdErr, false),
    {
        match self.failOnStdErr {
            Some(b) => b,
            None => false,
        }
    }

    /// Whether a nonzero exit code is left to the caller.
    pub fn ignores_return_code(&self) -> (r: bool)
        ensures
            r == flag_or(self.ignoreReturnCode, false),
    {
        match self.ignoreReturnCode {
            Some(b) => b,
            None => false,
        }
    }

    /// The grace period for the streams to close after exit.
    pub fn drain_grace_millis(&self) -> (r: usize)
        ensures
            r == self.drain_grace_spec(),
    {
        match self.delay {
            Some(d) => d,
            None => DEFAULT_DRAIN_GRACE_MILLIS,
        }
    }

    /// The listeners in effect; none when the options supply none.
    pub fn listener_set(&self) -> (r: FFIExecListeners)
        ensures
            r == match self.listeners {
                Some(l) => l,
                None => FFIExecListeners {
                    stdout: false,
                    stderr: false,
                    stdline: false,
                    errline: false,
                    debug: false,
                },
            },
    {
        match self.listeners {
            Some(l) => l,
            None => FFIExecListeners {
                stdout: false,
                stderr: false,
                stdline: false,
                errline: false,
                debug: false,
            },
        }
    }
}

} // verus!
