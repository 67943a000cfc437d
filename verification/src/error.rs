//! The failures that the sorter reports.

use vstd::prelude::*;

verus! {

/// What went wrong, by kind.
#[derive(Debug, Clone, Copy, PartialEq, Eq, Structural)]
pub enum ErrorType {
    /// A path of the configuration is invalid or missing. Fatal at start-up.
    ConfigError,
    /// A directory could not be created, listed or examined.
    FilesystemFailure,
    /// The watch on the source directory could not be established. Fatal at
    /// start-up.
    WatcherInitError,
    /// One file could not be relocated. The file stays where it is.
    MoveFailed,
    /// A discovered file matches no rule. The file stays where it is.
    NoMatchingRule,
    /// A discovered file matches a rule whose directory key is unknown to the
    /// directory index. The file stays where it is.
    UnmappedDirectoryKey,
    /// Anything else.
    ApplicationError,
}

/// A failure: its kind and a message for the reader.
#[derive(Debug)]
pub struct FsmError {
    error_type: ErrorType,
    message: String,
}

/// What an `FsmError` holds.
pub ghost struct FsmErrorView {
    pub error_type: ErrorType,
    pub message: Seq<char>,
}

impl View for FsmError {
    type V = FsmErrorView;

    closed spec fn view(&self) -> FsmErrorView {
        FsmErrorView { error_type: self.error_type, message: self.message@ }
    }
}

/// The name of a kind of failure.
pub open spec fn kind_name(error_type: ErrorType) -> Seq<char> {
    match error_type {
        ErrorType::ConfigError => "ConfigError"@,
        ErrorType::FilesystemFailure => "FilesystemFailure"@,
        ErrorType::WatcherInitError => "WatcherInitError"@,
        ErrorType::MoveFailed => "MoveFailed"@,
        ErrorType::NoMatchingRule => "NoMatchingRule"@,
        ErrorType::UnmappedDirectoryKey => "UnmappedDirectoryKey"@,
        ErrorType::ApplicationError => "ApplicationError"@,
    }
}

/// The line that reports a failure: the name of its kind, a dash, its message.
pub open spec fn report_line(error: FsmErrorView) -> Seq<char> {
    kind_name(error.error_type) + " - "@ + error.message
}

impl ErrorType {
    /// The name of this kind.
    pub fn name(&self) -> (text: &'static str)
        ensures
            text@ == kind_name(*self),
    {
        match self {
            ErrorType::ConfigError => "ConfigError",
            ErrorType::FilesystemFailure => "FilesystemFailure",
            ErrorType::WatcherInitError => "WatcherInitError",
            ErrorType::MoveFailed => "MoveFailed",
            ErrorType::NoMatchingRule => "NoMatchingRule",
            ErrorType::UnmappedDirectoryKey => "UnmappedDirectoryKey",
            ErrorType::ApplicationError => "ApplicationError",
        }
    }
}

impl FsmError {
    /// A failure of kind `error_type` with `message`.
    pub fn new(error_type: ErrorType, message: String) -> (error: Self)
        ensures
            error@ == (FsmErrorView { error_type, message: message@ }),
    {
        Self { error_type, message }
    }

    /// The message of the failure.
    pub fn get_error_message(&self) -> (message: &str)
        ensures
            message@ == self@.message,
    {
        self.message.as_str()
    }

    /// The kind of the failure.
    pub fn get_error_type(&self) -> (error_type: ErrorType)
        ensures
            error_type == self@.error_type,
    {
        self.error_type
    }

    /// The line that reports this failure.
    pub fn describe(&self) -> (line: String)
        ensures
            line@ == report_line(self@),
    {
        let mut line = String::from_str(self.error_type.name());
        line.append(" - ");
        line.append(self.message.as_str());
        line
    }

    /// A copy of this failure.
    pub fn duplicate(&self) -> (copy: Self)
        ensures
            copy@ == self@,
    {
        Self { error_type: self.error_type, message: self.message.clone() }
    }
}

} // verus!
