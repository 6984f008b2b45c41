use vstd::prelude::*;

verus! {

/// Options for reading an input of the action.
#[derive(Clone, Copy, Debug, Default, PartialEq, Eq, Structural)]
pub struct InputOptions {
    /// Whether a missing input is an error; defaults to false.
    pub required: Option<bool>,
    /// Whether surrounding whitespace is trimmed; defaults to true.
    pub trim_whitespace: Option<bool>,
}

impl InputOptions {
    /// Whether the input must be present.
    pub fn is_required(&self) -> (r: bool)
        ensures
            r == crate::exec::flag_or(self.required, false),
    {
        match self.required {
            Some(b) => b,
            None => false,
        }
    }

    /// Whether the value is trimmed.
    pub fn trims_whitespace(&self) -> (r: bool)
        ensures
            r == crate::exec::flag_or(self.trim_whitespace, true),
    {
        match self.trim_whitespace {
            Some(b) => b,
            None => true,
        }
    }
}

/// The code an action exits with.
#[derive(Clone, Copy, Debug, PartialEq, Eq, Structural)]
pub enum ExitCode {
    /// The action succeeded.
    Success,
    /// The action failed.
    Failure,
}

impl ExitCode {
    /// The process exit code: 0 for success, 1 for failure.
    pub fn code(&self) -> (r: i32)
        ensures
            r == (if *self == ExitCode::Success {
                0i32
            } else {
                1i32
            }),
    {
        match self {
            ExitCode::Success => 0,
            ExitCode::Failure => 1,
        }
    }
}

/// Where an annotation (notice, warning, error) points.
#[derive(Clone, Debug, Default, PartialEq, Eq)]
pub struct AnnotationProperties {
    /// A title for the annotation.
    pub title: Option<String>,
    /// The file the annotation is about.
    pub file: Option<String>,
    /// The first line.
    pub start_line: Option<usize>,
    /// The last line; the first line when only that is given.
    pub end_line: Option<usize>,
    /// The first column; only sent when the annotation spans one line.
    pub start_column: Option<usize>,
    /// The last column; the first column when only that is given.
    pub end_column: Option<usize>,
}

/// An optional value, or a fallback when it is absent.
pub open spec fn or_else(v: Option<usize>, d: Option<usize>) -> Option<usize> {
    match v {
        Some(x) => Some(x),
        None => d,
    }
}

impl AnnotationProperties {
    /// The last line in effect.
    pub fn resolved_end_line(&self) -> (r: Option<usize>)
        ensures
            r == or_else(self.end_line, self.start_line),
    {
        match self.end_line {
            Some(x) => Some(x),
            None => self.start_line,
        }
    }

    /// The last column in effect.
    pub fn resolved_end_column(&self) -> (r: Option<usize>)
        ensures
            r == or_else(self.end_column, self.start_column),
    {
        match self.end_column {
            Some(x) => Some(x),
            None => self.start_column,
        }
    }

    /// Columns may be sent only when the annotation stays on one line.
    pub fn columns_allowed(&self) -> (r: bool)
        ensures
            r == (self.start_line == or_else(self.end_line, self.start_line)),
    {
        let end = self.resolved_end_line();
        match (self.start_line, end) {
            (Some(a), Some(b)) => a == b,
            (None, None) => true,
            _ => false,
        }
    }
}

} // verus!
