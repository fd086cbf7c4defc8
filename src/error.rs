//! Error taxonomy of the engine and the structured validation error.

use vstd::prelude::*;

verus! {

/// Main error type of engine operations.
#[derive(Debug, Clone)]
pub enum UdfError {
    /// The provider's dependencies are missing, or its id is taken.
    ProviderNotAvailable(String),
    /// No UDF is registered under the given composite id.
    UdfNotFound(String),
    /// One or more parameters failed validation.
    ParameterValidation(String),
    /// A bound curve is not of an allowed type.
    CurveTypeMismatch { expected: String, actual: String },
    /// A required curve was not bound.
    MissingCurve(String),
    /// Curve data could not be loaded.
    CurveLoadError(String),
    /// The computation itself failed.
    ExecutionFailed(String),
    /// `can_execute` or `prepare` refused to run.
    PreCheckFailed(String),
    /// Post-processing of the output failed.
    PostProcessFailed(String),
    /// The metadata store reported an error.
    DatabaseError(String),
    /// Reading or writing a file failed.
    IoError(String),
    /// Encoding or decoding a value failed.
    SerializationError(String),
    /// Curves do not share a compatible depth index.
    IncompatibleData(String),
    /// A numeric computation went out of range.
    NumericError(String),
    /// The execution was cancelled by its caller.
    Cancelled,
}

impl UdfError {
    /// Human-readable text of the error.
    pub open spec fn text(&self) -> Seq<char> {
        match self {
            UdfError::ProviderNotAvailable(m) => "Provider not available: "@ + m@,
            UdfError::UdfNotFound(m) => "UDF not found: "@ + m@,
            UdfError::ParameterValidation(m) => "Parameter validation failed: "@ + m@,
            UdfError::MissingCurve(m) => "Required curve not provided: "@ + m@,
            UdfError::CurveLoadError(m) => "Failed to load curve data: "@ + m@,
            UdfError::ExecutionFailed(m) => "Execution failed: "@ + m@,
            UdfError::PreCheckFailed(m) => "Pre-execution check failed: "@ + m@,
            UdfError::PostProcessFailed(m) => "Post-processing failed: "@ + m@,
            UdfError::DatabaseError(m) => "Database error: "@ + m@,
            UdfError::IoError(m) => "I/O error: "@ + m@,
            UdfError::SerializationError(m) => "Serialization error: "@ + m@,
            UdfError::IncompatibleData(m) => "Incompatible curve data: "@ + m@,
            UdfError::NumericError(m) => "Numeric error: "@ + m@,
            UdfError::CurveTypeMismatch { expected, actual } => "Curve type mismatch: expected "@ + expected@ + ", got "@ + actual@,
            UdfError::Cancelled => "Execution cancelled"@,
        }
    }

    /// Renders the error as human-readable text.
    pub fn to_text(&self) -> (r: String)
        ensures
            r@ == self.text(),
    {
        match self {
            UdfError::ProviderNotAvailable(m) => "Provider not available: ".to_owned().concat(m.as_str()),
            UdfError::UdfNotFound(m) => "UDF not found: ".to_owned().concat(m.as_str()),
            UdfError::ParameterValidation(m) => "Parameter validation failed: ".to_owned().concat(m.as_str()),
            UdfError::MissingCurve(m) => "Required curve not provided: ".to_owned().concat(m.as_str()),
            UdfError::CurveLoadError(m) => "Failed to load curve data: ".to_owned().concat(m.as_str()),
            UdfError::ExecutionFailed(m) => "Execution failed: ".to_owned().concat(m.as_str()),
            UdfError::PreCheckFailed(m) => "Pre-execution check failed: ".to_owned().concat(m.as_str()),
            UdfError::PostProcessFailed(m) => "Post-processing failed: ".to_owned().concat(m.as_str()),
            UdfError::DatabaseError(m) => "Database error: ".to_owned().concat(m.as_str()),
            UdfError::IoError(m) => "I/O error: ".to_owned().concat(m.as_str()),
            UdfError::SerializationError(m) => "Serialization error: ".to_owned().concat(m.as_str()),
            UdfError::IncompatibleData(m) => "Incompatible curve data: ".to_owned().concat(m.as_str()),
            UdfError::NumericError(m) => "Numeric error: ".to_owned().concat(m.as_str()),
            UdfError::CurveTypeMismatch { expected, actual } => {
                let mut r = "Curve type mismatch: expected ".to_owned();
                r.append(expected.as_str());
                r.append(", got ");
                r.append(actual.as_str());
                r
            },
            UdfError::Cancelled => "Execution cancelled".to_owned(),
        }
    }
}

/// Validation error tied to one parameter or input.
#[derive(Debug, Clone)]
pub struct ValidationError {
    /// Parameter or input that failed validation.
    pub field: String,
    /// What is wrong with it.
    pub message: String,
    /// How to fix it, when known.
    pub suggestion: Option<String>,
}

/// Text of a validation error: `field: message`, then ` (suggestion: s)` when
/// a suggestion is present.
pub open spec fn validation_text(field: Seq<char>, message: Seq<char>, suggestion: Option<Seq<char>>) -> Seq<char> {
    match suggestion {
        Some(s) => field + ": "@ + message + " (suggestion: "@ + s + ")"@,
        None => field + ": "@ + message,
    }
}

impl ValidationError {
    /// Model of the suggestion as text.
    pub open spec fn suggestion_view(&self) -> Option<Seq<char>> {
        match self.suggestion {
            Some(s) => Some(s@),
            None => None,
        }
    }

    /// Text of this error.
    pub open spec fn text(&self) -> Seq<char> {
        validation_text(self.field@, self.message@, self.suggestion_view())
    }

    /// Creates an error without a suggestion.
    pub fn new(field: &str, message: &str) -> (r: ValidationError)
        ensures
            r.field@ == field@,
            r.message@ == message@,
            r.suggestion.is_none(),
    {
        ValidationError { field: field.to_owned(), message: message.to_owned(), suggestion: None }
    }

    /// Attaches a suggestion for fixing the error.
    pub fn with_suggestion(self, suggestion: &str) -> (r: ValidationError)
        ensures
            r.field == self.field,
            r.message == self.message,
            r.suggestion_view() == Some(suggestion@),
    {
        ValidationError { field: self.field, message: self.message, suggestion: Some(suggestion.to_owned()) }
    }

    /// Renders the error as `field: message (suggestion: s)`.
    pub fn to_text(&self) -> (r: String)
        ensures
            r@ == self.text(),
    {
        let mut r = self.field.clone();
        r.append(": ");
        r.append(self.message.as_str());
        match &self.suggestion {
            Some(s) => {
                r.append(" (suggestion: ");
                r.append(s.as_str());
                r.append(")");
            },
            None => {},
        }
        r
    }
}

} // verus!
