//! What can go wrong while a program runs.

use vstd::prelude::*;

verus! {

/// Why an instruction could not be executed.
///
/// `UnknownLabel` is a jump to a label that no line declares. The other four
/// are misuses of an operand.
#[derive(Debug, PartialEq, Eq)]
pub enum ExecError {
    /// A jump names a label that the program does not declare.
    UnknownLabel(String),
    /// A label stands where a value is read.
    LabelAsValue(String),
    /// The backup register is the destination of a move.
    WriteToBackup,
    /// An immediate is the destination of a move.
    WriteToImmediate,
    /// A label is the destination of a move.
    WriteToLabel(String),
}

/// An [`ExecError`] as contracts see it.
pub enum ExecErrorView {
    UnknownLabel(Seq<char>),
    LabelAsValue(Seq<char>),
    WriteToBackup,
    WriteToImmediate,
    WriteToLabel(Seq<char>),
}

impl View for ExecError {
    type V = ExecErrorView;

    open spec fn view(&self) -> ExecErrorView {
        match self {
            ExecError::UnknownLabel(name) => ExecErrorView::UnknownLabel(name@),
            ExecError::LabelAsValue(name) => ExecErrorView::LabelAsValue(name@),
            ExecError::WriteToBackup => ExecErrorView::WriteToBackup,
            ExecError::WriteToImmediate => ExecErrorView::WriteToImmediate,
            ExecError::WriteToLabel(name) => ExecErrorView::WriteToLabel(name@),
        }
    }
}

impl Clone for ExecError {
    fn clone(&self) -> (copy: ExecError)
        ensures
            copy == *self,
    {
        match self {
            ExecError::UnknownLabel(name) => ExecError::UnknownLabel(name.clone()),
            ExecError::LabelAsValue(name) => ExecError::LabelAsValue(name.clone()),
            ExecError::WriteToBackup => ExecError::WriteToBackup,
            ExecError::WriteToImmediate => ExecError::WriteToImmediate,
            ExecError::WriteToLabel(name) => ExecError::WriteToLabel(name.clone()),
        }
    }
}

/// The words that describe an error, whatever label it speaks of.
pub open spec fn description_of(error: ExecErrorView) -> Seq<char> {
    match error {
        ExecErrorView::UnknownLabel(_) => "unknown label"@,
        ExecErrorView::LabelAsValue(_) => "cannot use label as value"@,
        ExecErrorView::WriteToBackup => "cannot write directly to backup register"@,
        ExecErrorView::WriteToImmediate => "cannot write to immediate"@,
        ExecErrorView::WriteToLabel(_) => "cannot write to label"@,
    }
}

impl ExecError {
    /// Describes the error in words.
    pub fn description(&self) -> (words: &'static str)
        ensures
            words@ == description_of(self@),
    {
        match self {
            ExecError::UnknownLabel(_) => "unknown label",
            ExecError::LabelAsValue(_) => "cannot use label as value",
            ExecError::WriteToBackup => "cannot write directly to backup register",
            ExecError::WriteToImmediate => "cannot write to immediate",
            ExecError::WriteToLabel(_) => "cannot write to label",
        }
    }
}

/// What an operation that yields a value gave, as contracts see it.
pub open spec fn value_outcome(r: Result<i32, ExecError>) -> Result<int, ExecErrorView> {
    match r {
        Ok(value) => Ok(value as int),
        Err(e) => Err(e@),
    }
}

/// What an operation that yields a line gave, as contracts see it.
pub open spec fn line_outcome(r: Result<usize, ExecError>) -> Result<nat, ExecErrorView> {
    match r {
        Ok(line) => Ok(line as nat),
        Err(e) => Err(e@),
    }
}

/// An error together with the source line whose instruction raised it.
#[derive(Debug, PartialEq, Eq)]
pub struct RunError {
    /// The line of the failing instruction, counted from 1.
    pub line: usize,
    /// What went wrong there.
    pub error: ExecError,
}

impl Clone for RunError {
    fn clone(&self) -> (copy: RunError)
        ensures
            copy == *self,
    {
        RunError { line: self.line, error: self.error.clone() }
    }
}

} // verus!
