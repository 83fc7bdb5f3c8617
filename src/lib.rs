//! Typed access to named configuration values.
//!
//! An [`EnvGetter`] wraps a retrieval function from a name to a string, and reads
//! values of any [`EnvValue`] type through it: with a recoverable error, with a
//! default, or as a value the program requires. Reads in the `var` family hand
//! out references that live for the rest of the process.

mod env;
mod error;
mod getter;
mod laws;
mod parse;

pub use env::Env;
pub use error::EnvError;
pub use getter::{deref_result, read_result, value_of, EnvGetter};
pub use parse::{
    all_decimal_digits, bool_value, char_value, decimal_digits_value, decimal_in_range, decimal_value,
    is_decimal_digit, EnvValue,
};
