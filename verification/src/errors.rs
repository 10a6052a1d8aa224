use vstd::prelude::*;

verus! {

/// Every failure the library reports.  Loader failures (a wrong document
/// marker, a structurally invalid document) are fatal to the whole load;
/// engine failures are scoped to the rule being evaluated or applied.
#[derive(Debug, Clone)]
pub enum AppError {
    /// The document's `file` marker is not the expected constant; the
    /// payload is the marker that was found.
    FormatMismatch(String),
    /// The document is structurally invalid (missing or ill-typed section).
    MalformedDocument,
    /// An operation names a subsystem the engine does not implement; the
    /// payload is that subsystem name.
    UnsupportedSubsystem(String),
    /// An operation names a data type the engine does not implement; the
    /// payload is that data type tag.
    UnsupportedDataType(String),
    /// A desired value is not in the rule's logical domain; the payload is
    /// the rule's name.
    InvalidValue(String),
    /// An admin-gated rule was applied without elevation and without the
    /// skip policy; the payload is the rule's name.
    InsufficientPrivilege(String),
    /// A subsystem path does not start with a recognized root.
    InvalidPath,
}

impl AppError {
    /// A short human-readable tag for the error kind, for the caller to
    /// build messages from.
    pub fn kind_text(&self) -> (r: &'static str)
        ensures
            (*self is FormatMismatch) ==> r@ == "format mismatch"@,
            (*self is MalformedDocument) ==> r@ == "malformed document"@,
            (*self is UnsupportedSubsystem) ==> r@ == "unsupported subsystem"@,
            (*self is UnsupportedDataType) ==> r@ == "unsupported data type"@,
            (*self is InvalidValue) ==> r@ == "invalid value"@,
            (*self is InsufficientPrivilege) ==> r@ == "insufficient privilege"@,
            (*self is InvalidPath) ==> r@ == "invalid path"@,
    {
        match self {
            AppError::FormatMismatch(_) => "format mismatch",
            AppError::MalformedDocument => "malformed document",
            AppError::UnsupportedSubsystem(_) => "unsupported subsystem",
            AppError::UnsupportedDataType(_) => "unsupported data type",
            AppError::InvalidValue(_) => "invalid value",
            AppError::InsufficientPrivilege(_) => "insufficient privilege",
            AppError::InvalidPath => "invalid path",
        }
    }

    /// The detail string carried by the error, if any.
    pub fn detail(&self) -> (r: Option<&String>)
        ensures
            match *self {
                AppError::FormatMismatch(ref s) => r matches Some(d) && d@ == s@,
                AppError::UnsupportedSubsystem(ref s) => r matches Some(d) && d@ == s@,
                AppError::UnsupportedDataType(ref s) => r matches Some(d) && d@ == s@,
                AppError::InvalidValue(ref s) => r matches Some(d) && d@ == s@,
                AppError::InsufficientPrivilege(ref s) => r matches Some(d) && d@ == s@,
                _ => r is None,
            },
    {
        match self {
            AppError::FormatMismatch(s) => Some(s),
            AppError::UnsupportedSubsystem(s) => Some(s),
            AppError::UnsupportedDataType(s) => Some(s),
            AppError::InvalidValue(s) => Some(s),
            AppError::InsufficientPrivilege(s) => Some(s),
            AppError::MalformedDocument => None,
            AppError::InvalidPath => None,
        }
    }
}

} // verus!
