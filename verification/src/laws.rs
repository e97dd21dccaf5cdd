//! What holds of every declaration, write and read.

use vstd::prelude::*;
use crate::binding::Binding;
use crate::declaration::{
    declaration_refusal,
    declared,
    initializer_token,
    literal_value,
    marked_constant,
    marked_global,
    marked_private,
    remaining,
    type_token,
};
use crate::failure::Refusal;
use crate::value::{zero_value, Value};

verus! {

/// Whether two values are of the same kind.
pub open spec fn same_kind(left: Value, right: Value) -> bool {
    match (left, right) {
        (Value::Text(_), Value::Text(_)) => true,
        (Value::Int(_), Value::Int(_)) => true,
        (Value::Real(_), Value::Real(_)) => true,
        (Value::Flag(_), Value::Flag(_)) => true,
        (Value::Unset, Value::Unset) => true,
        _ => false,
    }
}

/// Two values have the same type tag exactly if they are of the same kind.
pub proof fn tags_tell_kinds_apart(left: Value, right: Value)
    ensures
        left.tag() == right.tag() <==> same_kind(left, right),
{
    reveal_strlit("string");
    reveal_strlit("int");
    reveal_strlit("float");
    reveal_strlit("bool");
    assert("string"@.len() == 6 && "int"@.len() == 3 && "float"@.len() == 5 && "bool"@.len() == 4);
}

/// A declaration without an initializer yields a variable that does not
/// count as set and holds the zero value of its declared type.
pub proof fn declaration_without_initializer(
    tokens: Seq<Seq<char>>,
    scope_level: u8,
    float_bits: Option<u32>,
)
    requires
        declaration_refusal(tokens, float_bits) is None,
        remaining(tokens) == 2,
    ensures
        !declared(tokens, scope_level, float_bits).is_set,
        zero_value(declared(tokens, scope_level, float_bits).declared_type) == Some(
            declared(tokens, scope_level, float_bits).value,
        ),
{
}

/// A declaration with an initializer that is a literal of the declared type
/// has no fault, provided that its first two tokens differ and that it is
/// not both private and global. Its variable counts as set and holds the
/// value that the literal writes.
pub proof fn declaration_with_initializer(
    tokens: Seq<Seq<char>>,
    scope_level: u8,
    float_bits: Option<u32>,
)
    requires
        tokens[0] != tokens[1],
        !(marked_private(tokens) && marked_global(tokens)),
        remaining(tokens) == 3,
        literal_value(type_token(tokens), initializer_token(tokens), float_bits) is Ok,
    ensures
        declaration_refusal(tokens, float_bits) is None,
        declared(tokens, scope_level, float_bits).is_set,
        literal_value(type_token(tokens), initializer_token(tokens), float_bits) == Ok::<
            Value,
            Refusal,
        >(declared(tokens, scope_level, float_bits).value),
{
}

/// A global variable lives at scope level 0 wherever it is declared; any
/// other variable lives at the level of its declaration.
pub proof fn global_overrides_scope_level(
    tokens: Seq<Seq<char>>,
    scope_level: u8,
    float_bits: Option<u32>,
)
    ensures
        marked_global(tokens) ==> declared(tokens, scope_level, float_bits).scope_level == 0,
        !marked_global(tokens) ==> declared(tokens, scope_level, float_bits).scope_level
            == scope_level,
{
}

/// A declaration that is both private and global is refused for that,
/// whatever follows the two modifiers.
pub proof fn private_and_global_conflict(tokens: Seq<Seq<char>>, float_bits: Option<u32>)
    requires
        marked_private(tokens),
        marked_global(tokens),
    ensures
        declaration_refusal(tokens, float_bits) == Some(Refusal::ConflictingScopeModifiers),
{
    reveal_strlit("pu");
    reveal_strlit("fu");
    assert("pu"@[0] != "fu"@[0]);
}

/// A constant declared with an initializer refuses every later write, and
/// the refused write leaves it exactly as it was.
pub proof fn constant_is_never_rewritten(
    tokens: Seq<Seq<char>>,
    scope_level: u8,
    float_bits: Option<u32>,
    value: Value,
)
    requires
        declaration_refusal(tokens, float_bits) is None,
        marked_constant(tokens),
        remaining(tokens) == 3,
    ensures
        declared(tokens, scope_level, float_bits).write_refusal(value) == Some(
            Refusal::ConstantReassignment,
        ),
        declared(tokens, scope_level, float_bits).after_write(value) == declared(
            tokens,
            scope_level,
            float_bits,
        ),
{
}

/// A write to a variable that is no constant goes through exactly if the
/// value offered is of the kind that the variable holds; a value of another
/// kind, the unset marker aside, is refused as a type mismatch and leaves
/// the held value as it was.
pub proof fn write_goes_by_kind(variable: Binding, value: Value)
    requires
        variable.wf(),
        !variable.is_constant,
        value != Value::Unset,
    ensures
        same_kind(variable.value, value) ==> variable.write_refusal(value) is None
            && variable.after_write(value).value == value,
        !same_kind(variable.value, value) ==> variable.write_refusal(value) == Some(
            Refusal::TypeMismatch(variable.declared_type, value.tag()->0),
        ) && variable.after_write(value).value == variable.value,
{
    tags_tell_kinds_apart(variable.value, value);
}

/// Every declaration without a fault yields a well-formed variable, and
/// every write keeps a variable well-formed.
pub proof fn well_formedness_is_kept(
    tokens: Seq<Seq<char>>,
    scope_level: u8,
    float_bits: Option<u32>,
    variable: Binding,
    value: Value,
)
    ensures
        declaration_refusal(tokens, float_bits) is None ==> declared(
            tokens,
            scope_level,
            float_bits,
        ).wf(),
        variable.wf() ==> variable.after_write(value).wf(),
{
}

/// A variable declared without an initializer cannot be read.
pub proof fn read_before_write_is_refused(
    tokens: Seq<Seq<char>>,
    scope_level: u8,
    float_bits: Option<u32>,
)
    requires
        declaration_refusal(tokens, float_bits) is None,
        remaining(tokens) == 2,
    ensures
        declared(tokens, scope_level, float_bits).read_result() == Err::<Value, Refusal>(
            Refusal::UseBeforeInitialization,
        ),
{
}

/// A read that follows a write that went through gives the value written.
pub proof fn read_after_write(variable: Binding, value: Value)
    requires
        variable.write_refusal(value) is None,
    ensures
        variable.after_write(value).read_result() == Ok::<Value, Refusal>(value),
{
}

} // verus!
