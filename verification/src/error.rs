//! Diagnostics reported by the macros.

use vstd::prelude::*;

verus! {

/// Whether a diagnostic is an error or a warning.
#[derive(Debug, PartialEq, Eq, Structural, Clone, Copy)]
pub enum Severity {
    Error,
    Warning,
}

/// Where a diagnostic points.
#[derive(Debug, PartialEq, Eq, Structural, Clone, Copy)]
pub enum Position {
    /// The macro call itself.
    CallSite,
    /// The whole item given to the derive.
    Item,
    /// The identifier of the struct.
    StructName,
    /// The type of the struct field with this index.
    FieldType(usize),
}

/// A diagnostic: its message, its optional error code (such as `E0412`), its severity and where
/// it points.
pub struct Error {
    pub message: String,
    pub code: Option<String>,
    pub severity: Severity,
    pub position: Position,
}

/// The content of a diagnostic, with its texts as character sequences.
pub struct ErrorView {
    pub message: Seq<char>,
    pub code: Option<Seq<char>>,
    pub severity: Severity,
    pub position: Position,
}

impl View for Error {
    type V = ErrorView;

    open spec fn view(&self) -> ErrorView {
        ErrorView {
            message: self.message@,
            code: match self.code {
                Some(c) => Some(c@),
                None => None,
            },
            severity: self.severity,
            position: self.position,
        }
    }
}

/// The contents of a sequence of diagnostics.
pub open spec fn errors_view(errors: Seq<Error>) -> Seq<ErrorView> {
    errors.map_values(|e: Error| e@)
}

impl Error {
    /// An error without a code.
    pub fn new(message: &str, position: Position) -> (res: Error)
        ensures
            res@ == (ErrorView { message: message@, code: None, severity: Severity::Error, position }),
    {
        Error { message: String::from_str(message), code: None, severity: Severity::Error, position }
    }

    /// An error with a code.
    pub fn new_with_code(message: &str, position: Position, code: &str) -> (res: Error)
        ensures
            res@ == (ErrorView {
                message: message@,
                code: Some(code@),
                severity: Severity::Error,
                position,
            }),
    {
        Error {
            message: String::from_str(message),
            code: Some(String::from_str(code)),
            severity: Severity::Error,
            position,
        }
    }

    /// A warning.
    pub fn new_warning(message: &str, position: Position) -> (res: Error)
        ensures
            res@ == (ErrorView {
                message: message@,
                code: None,
                severity: Severity::Warning,
                position,
            }),
    {
        Error { message: String::from_str(message), code: None, severity: Severity::Warning, position }
    }
}

/// `Ok(value)` when no diagnostic was collected, else `Err` with all of them.
pub fn res<T>(value: T, errors: Vec<Error>) -> (r: Result<T, Vec<Error>>)
    ensures
        errors@.len() == 0 ==> r == Ok::<T, Vec<Error>>(value),
        errors@.len() != 0 ==> r == Err::<T, Vec<Error>>(errors),
{
    if errors.len() == 0 {
        Ok(value)
    } else {
        Err(errors)
    }
}

} // verus!
