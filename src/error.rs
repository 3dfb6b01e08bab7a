//! Possible errors.
//!
//! An error occurs if an input (number or operator) cannot be parsed.
use vstd::prelude::*;

verus! {

/// Possible causes of an Error.
#[derive(Clone, Copy, Debug, PartialEq, Eq, Structural)]
pub enum ErrorCode {
    /// number cannot be parsed
    CannotParseNumber,
    /// operator cannot be parsed
    CannotParseOperator,
}

/// Exit status of a process whose numeric operand could not be parsed.
pub const EXIT_BAD_NUMBER: i32 = 2;

/// Exit status of a process whose operator could not be parsed.
pub const EXIT_BAD_OPERATOR: i32 = 3;

impl ErrorCode {
    pub open spec fn spec_exit_code(self) -> i32 {
        match self {
            ErrorCode::CannotParseNumber => EXIT_BAD_NUMBER,
            ErrorCode::CannotParseOperator => EXIT_BAD_OPERATOR,
        }
    }

    /// The process exit status that reports this cause.
    pub fn exit_code(self) -> (r: i32)
        ensures
            r == self.spec_exit_code(),
    {
        match self {
            ErrorCode::CannotParseNumber => EXIT_BAD_NUMBER,
            ErrorCode::CannotParseOperator => EXIT_BAD_OPERATOR,
        }
    }
}

/// Text that starts the message of an unparsable number.
pub open spec fn number_prefix() -> Seq<char> {
    "unable to parse number: "@
}

/// Text that starts the message of an unparsable operator.
pub open spec fn operator_prefix() -> Seq<char> {
    "unable to parse operator: "@
}

/// The error raised when a token cannot be parsed.
///
/// See ErrorCode for the possible reasons.
#[derive(Debug, Clone)]
pub struct Error {
    /// Message of the error
    message: String,
    /// Identifies the cause of the error.
    ec: ErrorCode,
}

impl Error {
    /// The cause of this error.
    pub closed spec fn spec_code(&self) -> ErrorCode {
        self.ec
    }

    /// The human-readable message of this error.
    pub closed spec fn spec_message(&self) -> Seq<char> {
        self.message@
    }

    /// Generates a new Error when a number cannot be parsed.
    pub fn at_number(num: &str) -> (r: Self)
        ensures
            r.spec_code() == ErrorCode::CannotParseNumber,
            r.spec_message() == number_prefix() + num@,
    {
        let mut message = String::from_str("unable to parse number: ");
        message.append(num);
        Error { message, ec: ErrorCode::CannotParseNumber }
    }

    /// Generates a new Error when the operator cannot be parsed.
    pub fn at_operator(op: &str) -> (r: Self)
        ensures
            r.spec_code() == ErrorCode::CannotParseOperator,
            r.spec_message() == operator_prefix() + op@,
    {
        let mut message = String::from_str("unable to parse operator: ");
        message.append(op);
        Error { message, ec: ErrorCode::CannotParseOperator }
    }

    /// Get the error code.
    pub fn code(&self) -> (r: ErrorCode)
        ensures
            r == self.spec_code(),
    {
        self.ec
    }

    /// The message of this error, as it is shown to a user.
    pub fn message(&self) -> (r: &str)
        ensures
            r@ == self.spec_message(),
    {
        self.message.as_str()
    }
}

} // verus!
