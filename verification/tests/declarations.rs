use skribi_variables::declaration::read_literal;
use skribi_variables::{new_variable, Failure, VariableError, VariableStruct, VariableType};

fn words(tokens: &[&str]) -> Vec<String> {
    tokens.iter().map(|t| t.to_string()).collect()
}

fn last_as_float(tokens: &[&str]) -> Option<u32> {
    tokens.last().and_then(|t| t.parse::<f32>().ok()).map(f32::to_bits)
}

fn build(tokens: &[&str], scope_level: u8, line: u16) -> Result<(VariableStruct, String), Failure> {
    new_variable(words(tokens), scope_level, line, last_as_float(tokens))
}

fn refusal(tokens: &[&str], scope_level: u8, line: u16) -> VariableError {
    let failure = build(tokens, scope_level, line).unwrap_err();
    assert_eq!(failure.line, line);
    failure.error
}

#[test]
fn int_with_initializer_round_trip() {
    let (mut variable, name) = build(&["int", "x", "5"], 0, 12).unwrap();
    assert_eq!(name, "x");
    assert_eq!(variable.name(), "x");
    assert_eq!(variable.declared_type(), "int");
    assert!(variable.is_set());
    assert!(!variable.is_constant());
    assert_eq!(variable.scope_level(), 0);
    assert_eq!(variable.get_value(12), Ok(&VariableType::Integer(5)));
}

#[test]
fn constant_bool_with_initializer() {
    let (mut variable, name) = build(&["ju", "bool", "flag", "true"], 0, 1).unwrap();
    assert_eq!(name, "flag");
    assert!(variable.is_constant());
    assert!(variable.is_set());
    assert_eq!(variable.declared_type(), "bool");
    assert_eq!(variable.get_value(1), Ok(&VariableType::Boolean(true)));
}

#[test]
fn global_and_private_conflict() {
    assert_eq!(
        refusal(&["fu", "pu", "string", "s"], 3, 8),
        VariableError::ConflictingScopeModifiers
    );
    assert_eq!(
        refusal(&["pu", "fu", "int", "n", "1"], 3, 8),
        VariableError::ConflictingScopeModifiers
    );
    assert_eq!(refusal(&["pu", "fu"], 0, 8), VariableError::ConflictingScopeModifiers);
    assert_eq!(
        refusal(&["fu", "pu", "a", "b", "c", "d", "e"], 0, 8),
        VariableError::ConflictingScopeModifiers
    );
}

#[test]
fn four_tokens_without_modifier_are_too_many() {
    assert_eq!(refusal(&["string", "a", "b", "c"], 0, 4), VariableError::TooManyTokens);
    assert_eq!(refusal(&["ju", "int", "a", "1", "2"], 0, 4), VariableError::TooManyTokens);
    assert_eq!(refusal(&["ju", "pu", "int", "a", "1", "2"], 0, 4), VariableError::TooManyTokens);
}

#[test]
fn no_initializer_gives_zero_value_and_unset() {
    let expected = [
        ("string", VariableType::String(String::new())),
        ("int", VariableType::Integer(0)),
        ("float", VariableType::Float(0.0f32.to_bits())),
        ("bool", VariableType::Boolean(false)),
    ];
    for (tag, zero) in expected {
        let (mut variable, name) = build(&[tag, "v"], 2, 5).unwrap();
        assert_eq!(name, "v");
        assert_eq!(variable.declared_type(), tag);
        assert!(!variable.is_set());
        assert!(!variable.is_constant());
        assert_eq!(variable.scope_level(), 2);
        assert_eq!(
            variable.get_value(6),
            Err(Failure { error: VariableError::UseBeforeInitialization, line: 6 })
        );
        let kept = match &zero {
            VariableType::String(_) => VariableType::String("later".to_string()),
            VariableType::Integer(_) => VariableType::Integer(0),
            VariableType::Float(_) => VariableType::Float(0),
            VariableType::Boolean(_) => VariableType::Boolean(false),
            VariableType::Unset => VariableType::Unset,
        };
        assert_eq!(VariableType::zero(&tag.to_string()), Some(zero));
        assert_eq!(variable.set_value(kept.clone(), 7), Ok(()));
        assert_eq!(variable.get_value(8), Ok(&kept));
    }
}

#[test]
fn zero_value_is_held_before_the_first_write() {
    let (mut variable, _) = build(&["int", "n"], 1, 1).unwrap();
    assert_eq!(
        variable.set_value(VariableType::Boolean(true), 2),
        Err(Failure {
            error: VariableError::TypeMismatch("int".to_string(), "bool".to_string()),
            line: 2
        })
    );
    assert!(variable.is_set());
    assert_eq!(variable.get_value(3), Ok(&VariableType::Integer(0)));
}

#[test]
fn initializer_gives_parsed_literal_and_set() {
    let cases = [
        (vec!["string", "s", "hello"], VariableType::String("hello".to_string())),
        (vec!["string", "s", "12"], VariableType::String("12".to_string())),
        (vec!["int", "n", "-42"], VariableType::Integer(-42)),
        (vec!["int", "n", "+7"], VariableType::Integer(7)),
        (vec!["int", "n", "-0"], VariableType::Integer(0)),
        (vec!["int", "n", "007"], VariableType::Integer(7)),
        (vec!["int", "n", "2147483647"], VariableType::Integer(i32::MAX)),
        (vec!["int", "n", "-2147483648"], VariableType::Integer(i32::MIN)),
        (vec!["float", "f", "1.5"], VariableType::Float(1.5f32.to_bits())),
        (vec!["float", "f", "-2"], VariableType::Float((-2.0f32).to_bits())),
        (vec!["bool", "b", "true"], VariableType::Boolean(true)),
        (vec!["bool", "b", "false"], VariableType::Boolean(false)),
    ];
    for (tokens, value) in cases {
        let (mut variable, name) = build(&tokens, 9, 3).unwrap();
        assert_eq!(name, tokens[1]);
        assert_eq!(variable.declared_type(), tokens[0]);
        assert!(variable.is_set());
        assert_eq!(variable.scope_level(), 9);
        assert_eq!(variable.get_value(3), Ok(&value));
    }
}

#[test]
fn malformed_literals_are_refused() {
    let cases = [
        vec!["int", "n", "five"],
        vec!["int", "n", ""],
        vec!["int", "n", "+"],
        vec!["int", "n", "-"],
        vec!["int", "n", " 5"],
        vec!["int", "n", "5 "],
        vec!["int", "n", "1_000"],
        vec!["int", "n", "0x10"],
        vec!["int", "n", "1.0"],
        vec!["int", "n", "--1"],
        vec!["int", "n", "2147483648"],
        vec!["int", "n", "-2147483649"],
        vec!["int", "n", "99999999999999999999"],
        vec!["float", "f", "one"],
        vec!["float", "f", ""],
        vec!["bool", "b", "True"],
        vec!["bool", "b", "1"],
        vec!["bool", "b", ""],
        vec!["bool", "b", "truee"],
        vec!["ju", "bool", "b", "yes"],
    ];
    for tokens in cases {
        assert_eq!(refusal(&tokens, 0, 21), VariableError::MalformedLiteral, "{:?}", tokens);
    }
}

#[test]
fn float_reading_is_taken_from_the_caller() {
    let line = words(&["float", "f", "1.5"]);
    let failure = new_variable(line.clone(), 0, 2, None).unwrap_err();
    assert_eq!(failure, Failure { error: VariableError::MalformedLiteral, line: 2 });
    let (mut variable, _) = new_variable(line, 0, 2, Some(7)).unwrap();
    assert_eq!(variable.get_value(2), Ok(&VariableType::Float(7)));
    let (mut other, _) = new_variable(words(&["int", "n", "3"]), 0, 2, Some(7)).unwrap();
    assert_eq!(other.get_value(2), Ok(&VariableType::Integer(3)));
    let (mut unset, _) = new_variable(words(&["float", "f"]), 0, 2, Some(7)).unwrap();
    assert_eq!(unset.set_value(VariableType::Float(7), 2), Ok(()));
    assert!(new_variable(words(&["float", "f"]), 0, 2, None).is_ok());
}

#[test]
fn read_literal_by_type() {
    let text = "12".to_string();
    assert_eq!(
        read_literal(&"string".to_string(), &text, None),
        Ok(VariableType::String("12".to_string()))
    );
    assert_eq!(read_literal(&"int".to_string(), &text, None), Ok(VariableType::Integer(12)));
    assert_eq!(
        read_literal(&"float".to_string(), &text, Some(12.0f32.to_bits())),
        Ok(VariableType::Float(0x4140_0000))
    );
    let malformed = Err(VariableError::MalformedLiteral);
    assert_eq!(read_literal(&"float".to_string(), &text, None), malformed);
    assert_eq!(read_literal(&"bool".to_string(), &text, None), malformed);
    assert_eq!(read_literal(&"Int".to_string(), &text, None), Err(VariableError::UnknownType));
    assert_eq!(
        read_literal(&"bool".to_string(), &"false".to_string(), None),
        Ok(VariableType::Boolean(false))
    );
}

#[test]
fn global_forces_scope_level_zero() {
    let (variable, _) = build(&["fu", "int", "g", "1"], 7, 1).unwrap();
    assert_eq!(variable.scope_level(), 0);
    let (variable, _) = build(&["ju", "fu", "int", "g"], 255, 1).unwrap();
    assert_eq!(variable.scope_level(), 0);
    assert!(variable.is_constant());
    let (variable, _) = build(&["pu", "int", "p", "1"], 7, 1).unwrap();
    assert_eq!(variable.scope_level(), 7);
    let (variable, _) = build(&["ju", "int", "c", "1"], 255, 1).unwrap();
    assert_eq!(variable.scope_level(), 255);
    let (variable, _) = build(&["int", "c"], 0, 1).unwrap();
    assert_eq!(variable.scope_level(), 0);
}

#[test]
fn private_changes_nothing_in_the_variable() {
    let (mut marked, name) = build(&["pu", "ju", "string", "s", "text"], 4, 1).unwrap();
    assert_eq!(name, "s");
    assert!(marked.is_constant());
    assert!(marked.is_set());
    assert_eq!(marked.scope_level(), 4);
    assert_eq!(marked.get_value(1), Ok(&VariableType::String("text".to_string())));
    let (mut plain, _) = build(&["pu", "string", "s"], 4, 1).unwrap();
    assert!(!plain.is_constant());
    assert_eq!(plain.set_value(VariableType::String("a".to_string()), 2), Ok(()));
}

#[test]
fn equal_first_tokens_are_a_duplicate() {
    assert_eq!(
        refusal(&["ju", "ju", "int", "x"], 0, 2),
        VariableError::DuplicateModifier("ju".to_string())
    );
    assert_eq!(
        refusal(&["pu", "pu"], 0, 2),
        VariableError::DuplicateModifier("pu".to_string())
    );
    assert_eq!(
        refusal(&["int", "int"], 0, 2),
        VariableError::DuplicateModifier("int".to_string())
    );
    assert_eq!(
        refusal(&["int", "int", "1"], 0, 2),
        VariableError::DuplicateModifier("int".to_string())
    );
}

#[test]
fn too_few_tokens_miss_type_or_name() {
    assert_eq!(refusal(&[], 0, 3), VariableError::MissingTypeOrName);
    assert_eq!(refusal(&["int"], 0, 3), VariableError::MissingTypeOrName);
    assert_eq!(refusal(&["ju"], 0, 3), VariableError::MissingTypeOrName);
    assert_eq!(refusal(&["ju", "int"], 0, 3), VariableError::MissingTypeOrName);
    assert_eq!(refusal(&["ju", "fu", "int"], 0, 3), VariableError::MissingTypeOrName);
    assert_eq!(refusal(&["ju", "fu"], 0, 3), VariableError::MissingTypeOrName);
}

#[test]
fn unknown_type_is_refused() {
    assert_eq!(refusal(&["number", "x"], 0, 3), VariableError::UnknownType);
    assert_eq!(refusal(&["number", "x", "1"], 0, 3), VariableError::UnknownType);
    assert_eq!(refusal(&["Int", "x", "1"], 0, 3), VariableError::UnknownType);
    assert_eq!(refusal(&["ju", "integer", "x", "y"], 0, 3), VariableError::UnknownType);
    assert_eq!(refusal(&["", "x"], 0, 3), VariableError::UnknownType);
}

#[test]
fn modifier_in_second_place_still_counts() {
    // One leading place is taken, so the type is looked for at the second token.
    assert_eq!(refusal(&["int", "pu", "x"], 0, 3), VariableError::UnknownType);
    assert_eq!(refusal(&["x", "ju", "int", "y"], 0, 3), VariableError::UnknownType);
    assert_eq!(refusal(&["int", "ju"], 0, 3), VariableError::MissingTypeOrName);
    assert_eq!(refusal(&["string", "fu"], 5, 3), VariableError::MissingTypeOrName);
    assert_eq!(refusal(&["x", "ju", "int", "y", "1"], 0, 3), VariableError::TooManyTokens);
}

#[test]
fn modifier_after_second_place_is_no_modifier() {
    let (mut variable, name) = build(&["string", "s", "ju"], 1, 3).unwrap();
    assert_eq!(name, "s");
    assert!(!variable.is_constant());
    assert_eq!(variable.get_value(3), Ok(&VariableType::String("ju".to_string())));
    let (variable, name) = build(&["pu", "int", "fu"], 5, 3).unwrap();
    assert_eq!(name, "fu");
    assert_eq!(variable.scope_level(), 5);
}
