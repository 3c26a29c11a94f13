use vstd::prelude::*;

verus! {

/// The three ways the page path can fail. Each is opaque to the client:
/// the response carries only a fixed message, never internal detail.
#[derive(Clone, Copy, Debug, PartialEq, Eq, Structural)]
pub enum AppError {
    /// The renderer failed to produce output.
    Render,
    /// The pool could not supply a connection.
    ConnectionPool,
    /// The read statement failed or a row could not be decoded.
    Query,
}

impl AppError {
    /// The fixed, client-safe message for each failure kind.
    pub open spec fn spec_message(self) -> Seq<char> {
        match self {
            AppError::Render => "Failed to render HTML."@,
            AppError::ConnectionPool => "Failed to get connection"@,
            AppError::Query => "Failed to SQL execution"@,
        }
    }

    /// Every failure maps to the same generic server error status.
    pub fn status_code(&self) -> (r: u16)
        ensures
            r == 500,
    {
        500
    }

    pub fn message(&self) -> (r: String)
        ensures
            r@ == self.spec_message(),
    {
        match self {
            AppError::Render => "Failed to render HTML.".to_owned(),
            AppError::ConnectionPool => "Failed to get connection".to_owned(),
            AppError::Query => "Failed to SQL execution".to_owned(),
        }
    }
}

}
