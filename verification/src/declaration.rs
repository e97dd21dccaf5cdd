//! Reading a declaration statement: up to two modifiers, a type, a name and
//! an optional initializer, each a token of its own.

use vstd::prelude::*;
use crate::binding::{Binding, VariableStruct};
use crate::failure::{Failure, Refusal, VariableError};
use crate::literal::{bool_literal, int_literal, parse_bool, parse_int};
use crate::value::{is_word, zero_value, Value, VariableType};

verus! {

/// The tokens of a statement as sequences of characters.
pub open spec fn tokens_of(line: Seq<String>) -> Seq<Seq<char>> {
    Seq::new(line.len(), |i: int| line[i]@)
}

/// Whether `word` stands at one of the first two places of the statement.
pub open spec fn has_modifier(tokens: Seq<Seq<char>>, word: Seq<char>) -> bool {
    (tokens.len() > 0 && tokens[0] == word) || (tokens.len() > 1 && tokens[1] == word)
}

/// Whether the declaration is marked private (`pu`).
pub open spec fn marked_private(tokens: Seq<Seq<char>>) -> bool {
    has_modifier(tokens, "pu"@)
}

/// Whether the declaration is marked global (`fu`).
pub open spec fn marked_global(tokens: Seq<Seq<char>>) -> bool {
    has_modifier(tokens, "fu"@)
}

/// Whether the declaration is marked constant (`ju`).
pub open spec fn marked_constant(tokens: Seq<Seq<char>>) -> bool {
    has_modifier(tokens, "ju"@)
}

/// How many of the three modifiers stand among the first two tokens. Each
/// takes up one leading place.
pub open spec fn modifier_count(tokens: Seq<Seq<char>>) -> int {
    (if marked_private(tokens) { 1int } else { 0 }) + (if marked_global(tokens) { 1int } else { 0 })
        + (if marked_constant(tokens) { 1int } else { 0 })
}

/// The number of tokens that follow the modifiers.
pub open spec fn remaining(tokens: Seq<Seq<char>>) -> int {
    tokens.len() - modifier_count(tokens)
}

/// The token that names the type. Meaningful where `remaining` is at least 2.
pub open spec fn type_token(tokens: Seq<Seq<char>>) -> Seq<char> {
    tokens[modifier_count(tokens)]
}

/// The token that names the variable. Meaningful where `remaining` is at least 2.
pub open spec fn name_token(tokens: Seq<Seq<char>>) -> Seq<char> {
    tokens[modifier_count(tokens) + 1]
}

/// The initializer. Meaningful where `remaining` is 3.
pub open spec fn initializer_token(tokens: Seq<Seq<char>>) -> Seq<char> {
    tokens[modifier_count(tokens) + 2]
}

/// The value that `text` writes as a literal of the type named by `tag`.
/// Any text is a string literal. `float_bits` is the reading of `text` as a
/// single-precision number, as bits, or `None` where it is no such number;
/// it is looked at for the type `float` only.
pub open spec fn literal_value(tag: Seq<char>, text: Seq<char>, float_bits: Option<u32>) -> Result<
    Value,
    Refusal,
> {
    if tag == "string"@ {
        Ok(Value::Text(text))
    } else if tag == "int"@ {
        match int_literal(text) {
            Some(number) => Ok(Value::Int(number)),
            None => Err(Refusal::MalformedLiteral),
        }
    } else if tag == "float"@ {
        match float_bits {
            Some(bits) => Ok(Value::Real(bits)),
            None => Err(Refusal::MalformedLiteral),
        }
    } else if tag == "bool"@ {
        match bool_literal(text) {
            Some(flag) => Ok(Value::Flag(flag)),
            None => Err(Refusal::MalformedLiteral),
        }
    } else {
        Err(Refusal::UnknownType)
    }
}

/// The value that the declaration gives its variable: the initializer read
/// as a literal of the declared type, or that type's zero value where the
/// declaration has no initializer.
pub open spec fn declared_value(tokens: Seq<Seq<char>>, float_bits: Option<u32>) -> Result<
    Value,
    Refusal,
> {
    if remaining(tokens) == 3 {
        literal_value(type_token(tokens), initializer_token(tokens), float_bits)
    } else {
        match zero_value(type_token(tokens)) {
            Some(value) => Ok(value),
            None => Err(Refusal::UnknownType),
        }
    }
}

/// The first fault of a declaration, or `None` where it has none. Faults are
/// looked for in this order: the first two tokens are equal; the declaration
/// is both private and global; too few tokens follow the modifiers; too
/// many; the type or the literal is refused.
pub open spec fn declaration_refusal(tokens: Seq<Seq<char>>, float_bits: Option<u32>) -> Option<
    Refusal,
> {
    if tokens.len() >= 2 && tokens[0] == tokens[1] {
        Some(Refusal::DuplicateModifier(tokens[0]))
    } else if marked_private(tokens) && marked_global(tokens) {
        Some(Refusal::ConflictingScopeModifiers)
    } else if remaining(tokens) < 2 {
        Some(Refusal::MissingTypeOrName)
    } else if remaining(tokens) > 3 {
        Some(Refusal::TooManyTokens)
    } else {
        match declared_value(tokens, float_bits) {
            Ok(_) => None,
            Err(refusal) => Some(refusal),
        }
    }
}

/// The variable that a faultless declaration, made at `scope_level`, yields.
/// A global variable lives at level 0 wherever it is declared. The variable
/// counts as set only if the declaration has an initializer.
pub open spec fn declared(
    tokens: Seq<Seq<char>>,
    scope_level: u8,
    float_bits: Option<u32>,
) -> Binding {
    Binding {
        name: name_token(tokens),
        value: declared_value(tokens, float_bits)->Ok_0,
        scope_level: if marked_global(tokens) { 0 } else { scope_level },
        is_constant: marked_constant(tokens),
        is_set: remaining(tokens) == 3,
        declared_type: type_token(tokens),
    }
}

/// Whether `word` is the first or the second token of the statement.
fn among_first_two(line: &Vec<String>, word: &str) -> (found: bool)
    ensures
        found == has_modifier(tokens_of(line@), word@),
{
    (line.len() > 0 && is_word(&line[0], word)) || (line.len() > 1 && is_word(&line[1], word))
}

/// Reads `text` as a literal of the type named by `tag`. `float_bits` is the
/// reading of `text` as a single-precision number, as bits.
pub fn read_literal(tag: &String, text: &String, float_bits: Option<u32>) -> (outcome: Result<
    VariableType,
    VariableError,
>)
    ensures
        match outcome {
            Ok(value) => literal_value(tag@, text@, float_bits) == Ok::<Value, Refusal>(value@),
            Err(error) => literal_value(tag@, text@, float_bits) == Err::<Value, Refusal>(error@),
        },
{
    if is_word(tag, "string") {
        Ok(VariableType::String(text.clone()))
    } else if is_word(tag, "int") {
        match parse_int(text.as_str()) {
            Some(number) => Ok(VariableType::Integer(number)),
            None => Err(VariableError::MalformedLiteral),
        }
    } else if is_word(tag, "float") {
        match float_bits {
            Some(bits) => Ok(VariableType::Float(bits)),
            None => Err(VariableError::MalformedLiteral),
        }
    } else if is_word(tag, "bool") {
        match parse_bool(text.as_str()) {
            Some(flag) => Ok(VariableType::Boolean(flag)),
            None => Err(VariableError::MalformedLiteral),
        }
    } else {
        Err(VariableError::UnknownType)
    }
}

/// Builds the variable that the declaration `line` declares at
/// `scope_level`, and hands it out together with its name.
///
/// `line_number` is the source line of the statement and is handed back in a
/// failure. `float_bits` is the reading of the last token as a single-precision
/// number, as IEEE-754 bits, or `None` where that token is no such number;
/// it is looked at only where the declaration is of type `float` and has an
/// initializer, which then is that last token.
pub fn new_variable(
    line: Vec<String>,
    scope_level: u8,
    line_number: u16,
    float_bits: Option<u32>,
) -> (outcome: Result<(VariableStruct, String), Failure>)
    ensures
        match outcome {
            Ok((variable, name)) => {
                &&& declaration_refusal(tokens_of(line@), float_bits) is None
                &&& variable@ == declared(tokens_of(line@), scope_level, float_bits)
                &&& name@ == variable@.name
                &&& variable@.wf()
            },
            Err(failure) => {
                &&& declaration_refusal(tokens_of(line@), float_bits) == Some(failure.error@)
                &&& failure.line == line_number
            },
        },
{
    let ghost tokens = tokens_of(line@);
    let length = line.len();
    let is_private = among_first_two(&line, "pu");
    let is_global = among_first_two(&line, "fu");
    let is_constant = among_first_two(&line, "ju");
    if length >= 2 && line[0] == line[1] {
        return Err(
            Failure { error: VariableError::DuplicateModifier(line[0].clone()), line: line_number },
        );
    }
    if is_private && is_global {
        return Err(Failure { error: VariableError::ConflictingScopeModifiers, line: line_number });
    }
    proof {
        modifiers_fit(tokens);
    }
    let mut first: usize = 0;
    if is_private {
        first += 1;
    }
    if is_global {
        first += 1;
    }
    if is_constant {
        first += 1;
    }
    assert(first == modifier_count(tokens));
    if length < first + 2 {
        return Err(Failure { error: VariableError::MissingTypeOrName, line: line_number });
    }
    if length > first + 3 {
        return Err(Failure { error: VariableError::TooManyTokens, line: line_number });
    }
    let has_initializer = length == first + 3;
    let resolved = if has_initializer {
        read_literal(&line[first], &line[first + 2], float_bits)
    } else {
        match VariableType::zero(&line[first]) {
            Some(value) => Ok(value),
            None => Err(VariableError::UnknownType),
        }
    };
    match resolved {
        Err(error) => Err(Failure { error, line: line_number }),
        Ok(value) => {
            let name = line[first + 1].clone();
            let variable = VariableStruct::assemble(
                line[first + 1].clone(),
                value,
                if is_global { 0 } else { scope_level },
                is_constant,
                has_initializer,
                line[first].clone(),
            );
            Ok((variable, name))
        },
    }
}

/// No more than two modifiers stand among two tokens, and where the first
/// two tokens differ, no more than there are tokens.
pub proof fn modifiers_fit(tokens: Seq<Seq<char>>)
    ensures
        0 <= modifier_count(tokens) <= 3,
        tokens.len() < 2 || tokens[0] != tokens[1] ==> modifier_count(tokens) <= tokens.len(),
        tokens.len() < 2 || tokens[0] != tokens[1] ==> modifier_count(tokens) <= 2,
{
    reveal_strlit("pu");
    reveal_strlit("fu");
    reveal_strlit("ju");
    assert("pu"@[0] != "fu"@[0]);
    assert("pu"@[0] != "ju"@[0]);
    assert("fu"@[0] != "ju"@[0]);
}

} // verus!
