//! The ways in which a declaration, a write or a read is refused.

use vstd::prelude::*;

verus! {

/// A refusal as contracts see it.
pub enum Refusal {
    DuplicateModifier(Seq<char>),
    ConflictingScopeModifiers,
    MissingTypeOrName,
    TooManyTokens,
    UnknownType,
    MalformedLiteral,
    ConstantReassignment,
    TypeMismatch(Seq<char>, Seq<char>),
    InvalidAssignment,
    UseBeforeInitialization,
}

/// Why an operation on a variable was refused.
#[derive(Debug, Clone, PartialEq, Eq)]
pub enum VariableError {
    /// The first two tokens of a declaration are the same; carries that token.
    DuplicateModifier(String),
    /// A declaration is marked both private and global.
    ConflictingScopeModifiers,
    /// A declaration lacks its type or its name.
    MissingTypeOrName,
    /// A declaration goes on after its initializer.
    TooManyTokens,
    /// The type token of a declaration names no type.
    UnknownType,
    /// The initializer is no literal of the declared type.
    MalformedLiteral,
    /// A write to a constant.
    ConstantReassignment,
    /// A write of a value of another kind; carries the declared type and the
    /// type tag of the value offered.
    TypeMismatch(String, String),
    /// A write of the unset marker.
    InvalidAssignment,
    /// A read of a variable that was never written.
    UseBeforeInitialization,
}

impl View for VariableError {
    type V = Refusal;

    open spec fn view(&self) -> Refusal {
        match self {
            VariableError::DuplicateModifier(token) => Refusal::DuplicateModifier(token@),
            VariableError::ConflictingScopeModifiers => Refusal::ConflictingScopeModifiers,
            VariableError::MissingTypeOrName => Refusal::MissingTypeOrName,
            VariableError::TooManyTokens => Refusal::TooManyTokens,
            VariableError::UnknownType => Refusal::UnknownType,
            VariableError::MalformedLiteral => Refusal::MalformedLiteral,
            VariableError::ConstantReassignment => Refusal::ConstantReassignment,
            VariableError::TypeMismatch(declared, offered) => Refusal::TypeMismatch(
                declared@,
                offered@,
            ),
            VariableError::InvalidAssignment => Refusal::InvalidAssignment,
            VariableError::UseBeforeInitialization => Refusal::UseBeforeInitialization,
        }
    }
}

/// The text that reports a refusal.
pub open spec fn message_text(refusal: Refusal) -> Seq<char> {
    match refusal {
        Refusal::DuplicateModifier(token) => "Syntax error: to many "@ + token
            + " in variable declaration"@,
        Refusal::ConflictingScopeModifiers => "Variable cannot be both global and private"@,
        Refusal::MissingTypeOrName =>
            "Syntax error: variable declaration need at least a type and a name"@,
        Refusal::TooManyTokens =>
            "Syntax error: variable declaration can only have a type, a name and a value"@,
        Refusal::UnknownType => "Unknown variable type"@,
        Refusal::MalformedLiteral => "Syntax error: malformed literal in variable declaration"@,
        Refusal::ConstantReassignment => "Cannot redefine value of constant"@,
        Refusal::TypeMismatch(declared, offered) => "Cannot set "@ + declared + " to "@ + offered,
        Refusal::InvalidAssignment => "Cannot set variable to unset"@,
        Refusal::UseBeforeInitialization => "Variable was never initialized"@,
    }
}

/// A refusal together with the source line of the statement that caused it.
#[derive(Debug, Clone, PartialEq, Eq)]
pub struct Failure {
    pub error: VariableError,
    pub line: u16,
}

impl Failure {
    /// The diagnostic text for this failure, without the line number.
    pub fn message(&self) -> (text: String)
        ensures
            text@ == message_text(self.error@),
    {
        match &self.error {
            VariableError::DuplicateModifier(token) => {
                String::from_str("Syntax error: to many ").concat(token.as_str()).concat(
                    " in variable declaration",
                )
            },
            VariableError::ConflictingScopeModifiers => String::from_str(
                "Variable cannot be both global and private",
            ),
            VariableError::MissingTypeOrName => String::from_str(
                "Syntax error: variable declaration need at least a type and a name",
            ),
            VariableError::TooManyTokens => String::from_str(
                "Syntax error: variable declaration can only have a type, a name and a value",
            ),
            VariableError::UnknownType => String::from_str("Unknown variable type"),
            VariableError::MalformedLiteral => String::from_str(
                "Syntax error: malformed literal in variable declaration",
            ),
            VariableError::ConstantReassignment => String::from_str(
                "Cannot redefine value of constant",
            ),
            VariableError::TypeMismatch(declared, offered) => {
                String::from_str("Cannot set ").concat(declared.as_str()).concat(" to ").concat(
                    offered.as_str(),
                )
            },
            VariableError::InvalidAssignment => String::from_str("Cannot set variable to unset"),
            VariableError::UseBeforeInitialization => String::from_str(
                "Variable was never initialized",
            ),
        }
    }
}

} // verus!
