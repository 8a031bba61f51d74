//! Tokens and runtime values as plain data.

use passerine::Data;
use passerine::Token;

#[test]
fn token_descriptions() {
    assert_eq!(Token::OpenBracket.describe(), "an opening bracket");
    assert_eq!(Token::CloseBracket.describe(), "a closing bracket");
    assert_eq!(Token::Sep.describe(), "a separator");
    assert_eq!(Token::Unit.describe(), "the Unit, '()'");
    assert_eq!(Token::Number(Data::Number(0)).describe(), "a number");
    assert_eq!(
        Token::Boolean(Data::Boolean(true)).describe(),
        "a boolean, like 'true' or 'false'",
    );
    assert_eq!(Token::End.describe(), "end of source");
}

#[test]
fn tokens_compare_by_carried_value() {
    assert_eq!(Token::Boolean(Data::Boolean(true)), Token::Boolean(Data::Boolean(true)));
    assert_ne!(Token::Boolean(Data::Boolean(true)), Token::Boolean(Data::Boolean(false)));
    assert_eq!(Token::Assign.clone(), Token::Assign);
    assert_ne!(Token::OpenParen, Token::CloseParen);
}

#[test]
fn values_compare_observably() {
    assert_eq!(Data::Unit, Data::Unit);
    assert_eq!(Data::Number(37.2f64.to_bits()), Data::Number(37.2f64.to_bits()));
    assert_ne!(Data::Number(1.0f64.to_bits()), Data::Number(2.0f64.to_bits()));
    assert_eq!(Data::String("hey".to_string()), Data::String("hey".to_string()));
    assert_ne!(Data::String("hey".to_string()), Data::String("ho".to_string()));
    assert_ne!(Data::Unit, Data::Boolean(false));
    assert_ne!(Data::Boolean(true), Data::Boolean(false));
}

#[test]
fn cloned_values_are_independent_copies() {
    let original = Data::String("shared?".to_string());
    let copy = original.clone();
    drop(original);
    assert_eq!(copy, Data::String("shared?".to_string()));
}
