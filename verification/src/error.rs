use vstd::prelude::*;

verus! {

/// Errors raised across the Chronos pipeline.
#[derive(Debug, Clone, PartialEq, Eq)]
pub enum ChronosError {
    /// The screen could not be captured or encoded.
    Capture(String),
    /// A configuration value is invalid.
    Config(String),
    /// A storage operation failed.
    Database(String),
    /// The vision model could not produce an analysis.
    Inference(String),
    /// An operation ran out of time.
    Timeout(String),
    /// A caller-supplied value is out of range or malformed.
    InvalidInput(String),
    /// The requested operation is not available in this version.
    Unsupported(String),
}

/// The content of a [`ChronosError`]: its kind and its message as characters.
pub enum ErrorModel {
    Capture(Seq<char>),
    Config(Seq<char>),
    Database(Seq<char>),
    Inference(Seq<char>),
    Timeout(Seq<char>),
    InvalidInput(Seq<char>),
    Unsupported(Seq<char>),
}

impl View for ChronosError {
    type V = ErrorModel;

    open spec fn view(&self) -> ErrorModel {
        match self {
            ChronosError::Capture(m) => ErrorModel::Capture(m@),
            ChronosError::Config(m) => ErrorModel::Config(m@),
            ChronosError::Database(m) => ErrorModel::Database(m@),
            ChronosError::Inference(m) => ErrorModel::Inference(m@),
            ChronosError::Timeout(m) => ErrorModel::Timeout(m@),
            ChronosError::InvalidInput(m) => ErrorModel::InvalidInput(m@),
            ChronosError::Unsupported(m) => ErrorModel::Unsupported(m@),
        }
    }
}

/// A result with its error replaced by the error's content.
pub open spec fn outcome<T>(r: Result<T, ChronosError>) -> Result<T, ErrorModel> {
    match r {
        Ok(v) => Ok(v),
        Err(e) => Err(e@),
    }
}

/// Whether an error is worth retrying: timeouts, inference hiccups and database errors.
pub open spec fn spec_is_transient(err: ChronosError) -> bool {
    err is Timeout || err is Inference || err is Database
}

/// Returns `true` for errors that a bounded retry may overcome.
pub fn is_transient(err: &ChronosError) -> (r: bool)
    ensures
        r == spec_is_transient(*err),
{
    match err {
        ChronosError::Timeout(_) | ChronosError::Inference(_) | ChronosError::Database(_) => true,
        _ => false,
    }
}

} // verus!
