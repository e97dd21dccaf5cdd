//! Variable bindings of a small interpreted language: the values a variable
//! can hold, the record that guards reads and writes of one variable, and the
//! reading of a tokenized declaration statement into such a record.

pub mod binding;
pub mod declaration;
pub mod failure;
pub mod laws;
pub mod literal;
pub mod value;

pub use binding::VariableStruct;
pub use declaration::new_variable;
pub use failure::{Failure, VariableError};
pub use value::VariableType;
