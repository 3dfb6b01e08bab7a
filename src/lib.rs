//! A small calculator: locale-tolerant number tokens, an operator table with
//! several spellings per operator, and the line splitting and step decision of
//! an interactive chaining loop.
pub mod chain;
pub mod error;
pub mod number;
pub mod operator;
pub mod operators;

pub use error::Error;
pub use error::ErrorCode;
pub use operator::Operator;
