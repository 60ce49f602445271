use vstd::prelude::*;

verus! {

/// The failure of a request, carrying the context it arose in.
#[derive(Debug)]
pub enum DataError {
    /// The requested entity does not exist.
    NotFound(String),
    /// An I/O, decode or upstream failure, or an empty result where data was owed.
    InternalServerError(String),
}

impl DataError {
    /// The context the error carries.
    pub open spec fn cause(&self) -> Seq<char> {
        match self {
            DataError::NotFound(c) => c@,
            DataError::InternalServerError(c) => c@,
        }
    }

    /// The prefix that names the kind of the error in its description.
    pub open spec fn kind_label(&self) -> Seq<char> {
        match self {
            DataError::NotFound(_) => "Not Found: "@,
            DataError::InternalServerError(_) => "Internal Server Error: "@,
        }
    }

    /// A line that names the kind of the error followed by its context.
    pub fn describe(&self) -> (r: String)
        ensures
            r@ == self.kind_label() + self.cause(),
    {
        match self {
            DataError::NotFound(cause) => {
                let s = String::from_str("Not Found: ");
                s.concat(cause.as_str())
            },
            DataError::InternalServerError(cause) => {
                let s = String::from_str("Internal Server Error: ");
                s.concat(cause.as_str())
            },
        }
    }

    /// The HTTP status the error is rendered with.
    pub fn status_code(&self) -> (r: u16)
        ensures
            r == (if self is NotFound { 404u16 } else { 500u16 }),
    {
        match self {
            DataError::NotFound(_) => 404,
            DataError::InternalServerError(_) => 500,
        }
    }

    /// The message shown to the client; it never reveals the context.
    pub fn public_message(&self) -> (r: String)
        ensures
            r@ == (if self is NotFound { "Data not found"@ } else { "Internal server error"@ }),
    {
        match self {
            DataError::NotFound(_) => String::from_str("Data not found"),
            DataError::InternalServerError(_) => String::from_str("Internal server error"),
        }
    }
}

} // verus!
