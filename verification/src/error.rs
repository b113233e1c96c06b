//! The error type shared by the library's fallible operations.

use vstd::prelude::*;

verus! {

/// `std::io::Error`, carried through the library as an opaque value: nothing
/// is claimed about what it holds.
#[verifier::external_type_specification]
#[verifier::external_body]
pub struct ExIoError(std::io::Error);

/// What can go wrong in this library.
#[derive(Debug)]
pub enum LibError {
    /// The caller handed in a value that the operation does not accept.
    InvalidInput(String),
    /// The operation was attempted and did not succeed.
    OperationFailed(String),
    /// An input or output operation failed; the cause is passed through.
    Io(std::io::Error),
}

impl From<std::io::Error> for LibError {
    fn from(err: std::io::Error) -> (e: LibError) {
        LibError::Io(err)
    }
}

impl vstd::std_specs::convert::FromSpecImpl<std::io::Error> for LibError {
    open spec fn obeys_from_spec() -> bool {
        true
    }

    open spec fn from_spec(err: std::io::Error) -> LibError {
        LibError::Io(err)
    }
}

impl LibError {
    /// The words that open the description of this kind of error.
    pub open spec fn heading(&self) -> Seq<char> {
        match self {
            LibError::InvalidInput(_) => "Invalid input: "@,
            LibError::OperationFailed(_) => "Operation failed: "@,
            LibError::Io(_) => "IO error: "@,
        }
    }

    /// Describes the error in one line: the heading of its kind, followed by
    /// the message it carries or, for an I/O failure, by the cause as it
    /// describes itself.
    pub fn to_string(&self) -> (text: String)
        ensures
            self.heading().is_prefix_of(text@),
            self matches LibError::InvalidInput(m) ==> text@ == self.heading() + m@,
            self matches LibError::OperationFailed(m) ==> text@ == self.heading() + m@,
            self matches LibError::Io(err) ==> exists|cause: String| #[trigger]
                vstd::string::to_string_from_display_ensures::<std::io::Error>(&err, cause)
                    && text@ == self.heading() + cause@,
    {
        match self {
            LibError::InvalidInput(m) => String::from_str("Invalid input: ").concat(m.as_str()),
            LibError::OperationFailed(m) => String::from_str("Operation failed: ").concat(
                m.as_str(),
            ),
            LibError::Io(err) => {
                let cause = err.to_string();
                String::from_str("IO error: ").concat(cause.as_str())
            },
        }
    }
}

} // verus!
