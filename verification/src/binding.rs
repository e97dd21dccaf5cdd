//! One variable: its value, its declared type and the rules that every read
//! and write of it must pass.

use vstd::prelude::*;
use crate::failure::{Failure, Refusal, VariableError};
use crate::value::{is_type_tag, is_word, Value, VariableType};

verus! {

/// A variable as contracts see it.
pub struct Binding {
    pub name: Seq<char>,
    pub value: Value,
    /// The nesting depth of the declaring block; 0 is the global scope.
    pub scope_level: u8,
    pub is_constant: bool,
    pub is_set: bool,
    pub declared_type: Seq<char>,
}

impl Binding {
    /// The declared type is one of the four type tags, and the value is of
    /// the kind that this tag names.
    pub open spec fn wf(self) -> bool {
        is_type_tag(self.declared_type) && self.value.tag() == Some(self.declared_type)
    }

    /// Why a write of `value` is refused, or `None` where it goes through.
    /// A constant refuses every write; the unset marker is never written;
    /// any other value must be of the declared type.
    pub open spec fn write_refusal(self, value: Value) -> Option<Refusal> {
        if self.is_constant {
            Some(Refusal::ConstantReassignment)
        } else {
            match value.tag() {
                None => Some(Refusal::InvalidAssignment),
                Some(tag) => if tag == self.declared_type {
                    None
                } else {
                    Some(Refusal::TypeMismatch(self.declared_type, tag))
                },
            }
        }
    }

    /// The variable after a write of `value` was asked for. A constant stays
    /// as it is. Any other variable counts as set from then on, whether or
    /// not the write went through, and holds `value` if it did.
    pub open spec fn after_write(self, value: Value) -> Binding {
        if self.is_constant {
            self
        } else if self.write_refusal(value) is None {
            Binding { value: value, is_set: true, ..self }
        } else {
            Binding { is_set: true, ..self }
        }
    }

    /// What a read gives: the value, once the variable counts as set.
    pub open spec fn read_result(self) -> Result<Value, Refusal> {
        if self.is_set {
            Ok(self.value)
        } else {
            Err(Refusal::UseBeforeInitialization)
        }
    }
}

/// Everything the interpreter keeps about one variable.
#[derive(Debug)]
pub struct VariableStruct {
    name: String,
    value: VariableType,
    scope_level: u8,
    is_constant: bool,
    is_set: bool,
    declared_type: String,
}

impl View for VariableStruct {
    type V = Binding;

    closed spec fn view(&self) -> Binding {
        Binding {
            name: self.name@,
            value: self.value@,
            scope_level: self.scope_level,
            is_constant: self.is_constant,
            is_set: self.is_set,
            declared_type: self.declared_type@,
        }
    }
}

impl VariableStruct {
    /// Every variable is declared with one of the four type tags and holds a
    /// value of the kind that this tag names.
    #[verifier::type_invariant]
    spec fn well_formed(&self) -> bool {
        self@.wf()
    }

    /// Puts a variable together from its parts.
    pub(crate) fn assemble(
        name: String,
        value: VariableType,
        scope_level: u8,
        is_constant: bool,
        is_set: bool,
        declared_type: String,
    ) -> (variable: VariableStruct)
        requires
            is_type_tag(declared_type@),
            value@.tag() == Some(declared_type@),
        ensures
            variable@ == (Binding {
                name: name@,
                value: value@,
                scope_level: scope_level,
                is_constant: is_constant,
                is_set: is_set,
                declared_type: declared_type@,
            }),
    {
        VariableStruct { name, value, scope_level, is_constant, is_set, declared_type }
    }

    /// Changes the value of the variable. A constant refuses the write and
    /// stays untouched. Any other variable counts as set afterwards; it takes
    /// `value` if that is of the declared type and keeps its old value if
    /// not. `line` is the source line of the writing statement and is handed
    /// back in a failure.
    pub fn set_value(&mut self, value: VariableType, line: u16) -> (outcome: Result<(), Failure>)
        ensures
            final(self)@ == old(self)@.after_write(value@),
            final(self)@.wf(),
            match outcome {
                Ok(()) => old(self)@.write_refusal(value@) is None,
                Err(failure) => old(self)@.write_refusal(value@) == Some(failure.error@)
                    && failure.line == line,
            },
    {
        proof {
            use_type_invariant(&*self);
        }
        if self.is_constant {
            return Err(Failure { error: VariableError::ConstantReassignment, line });
        }
        self.is_set = true;
        match value.type_tag() {
            None => Err(Failure { error: VariableError::InvalidAssignment, line }),
            Some(tag) => {
                if tag == self.declared_type {
                    self.value = value;
                    Ok(())
                } else {
                    Err(
                        Failure {
                            error: VariableError::TypeMismatch(self.declared_type.clone(), tag),
                            line,
                        },
                    )
                }
            },
        }
    }

    /// Reads the value of the variable, which is always of the declared
    /// type, and changes nothing. A variable that does not count as set
    /// refuses the read. `line` is the source line of the reading statement
    /// and is handed back in a failure.
    pub fn get_value(&mut self, line: u16) -> (outcome: Result<&VariableType, Failure>)
        ensures
            *final(self) == *old(self),
            old(self)@.wf(),
            match outcome {
                Ok(value) => old(self)@.read_result() == Ok::<Value, Refusal>(value@),
                Err(failure) => old(self)@.read_result() == Err::<Value, Refusal>(failure.error@)
                    && failure.line == line,
            },
    {
        proof {
            use_type_invariant(&*self);
        }
        if !self.is_set {
            return Err(Failure { error: VariableError::UseBeforeInitialization, line });
        }
        Ok(&self.value)
    }

    /// The name under which the variable was declared.
    pub fn name(&self) -> (name: &String)
        ensures
            name@ == self@.name,
    {
        &self.name
    }

    /// The nesting depth of the declaring block; 0 is the global scope.
    pub fn scope_level(&self) -> (level: u8)
        ensures
            level == self@.scope_level,
    {
        self.scope_level
    }

    /// Whether the variable was declared constant.
    pub fn is_constant(&self) -> (constant: bool)
        ensures
            constant == self@.is_constant,
    {
        self.is_constant
    }

    /// Whether a value was ever given to the variable.
    pub fn is_set(&self) -> (set: bool)
        ensures
            set == self@.is_set,
    {
        self.is_set
    }

    /// The type tag that the variable was declared with.
    pub fn declared_type(&self) -> (tag: &String)
        ensures
            tag@ == self@.declared_type,
    {
        &self.declared_type
    }
}

} // verus!
