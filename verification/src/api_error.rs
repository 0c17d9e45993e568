use vstd::prelude::*;
use vstd::string::StringExecFns;

verus! {

/// The closed set of API-level failure kinds. Every kind is convertible to an
/// HTTP status and body by the dispatch context's error-handling hook.
#[derive(Debug)]
pub enum ApiError {
    /// An internal error constructed by a handler, carrying a descriptive message.
    InternalServerError(String),
    /// A wrapped I/O failure, carrying the underlying error's description.
    IoError(String),
}

impl ApiError {
    /// The text this failure presents: one fixed template for every kind.
    pub open spec fn spec_message(self) -> Seq<char> {
        match self {
            ApiError::InternalServerError(m) => "Internal server error: "@ + m@,
            ApiError::IoError(m) => "Internal server error: "@ + m@,
        }
    }

    /// Render the failure's message text.
    pub fn message(&self) -> (text: String)
        ensures
            text@ == self.spec_message(),
    {
        let mut text = "Internal server error: ".to_owned();
        match self {
            ApiError::InternalServerError(m) => text.append(m.as_str()),
            ApiError::IoError(m) => text.append(m.as_str()),
        }
        text
    }
}

} // verus!
