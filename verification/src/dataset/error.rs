use vstd::prelude::*;

verus! {

/// What a tier reports when it cannot answer.
///
/// A miss is not an error: every lookup reports it as `Ok(None)`.
#[derive(Debug, PartialEq)]
pub enum Error {
    /// A driver-level failure other than "row not found", with the driver's message.
    Database(String),
    /// The tier does not offer the operation that was asked of it.
    Unsupported(String),
}

impl Error {
    /// The message carried by either kind.
    pub open spec fn message(self) -> Seq<char> {
        match self {
            Error::Database(m) => m@,
            Error::Unsupported(m) => m@,
        }
    }

    /// Renders the error the way callers print it.
    pub fn to_text(&self) -> (r: String)
        ensures
            r@ == match *self {
                Error::Database(m) => "Database error: "@ + m@,
                Error::Unsupported(m) => "Unsupported operation: "@ + m@,
            },
    {
        match self {
            Error::Database(m) => String::from_str("Database error: ").concat(m.as_str()),
            Error::Unsupported(m) => String::from_str("Unsupported operation: ").concat(m.as_str()),
        }
    }
}

} // verus!
