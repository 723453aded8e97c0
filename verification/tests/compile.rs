use fuzzy_systems::{compile, CompileError, Expr, ExprValue, Hamacher1, Token};

fn atom(v: u32) -> Token<Hamacher1> {
    Token::Atom(ExprValue::<Hamacher1>::new(v).to_tree())
}

#[test]
fn single_atom() {
    let e = compile(vec![atom(250)]).unwrap();
    assert_eq!(e.to_string(), "0.25");
    assert_eq!(e.to_value().as_raw(), 250);
}

#[test]
fn negation_binds_tightest() {
    let e = compile(vec![Token::Not, atom(400)]).unwrap();
    assert_eq!(e.to_string(), "!0.4");
    // not(0.4) under Hamacher1 is 0.6.
    assert_eq!(e.to_value().as_raw(), 600);
}

#[test]
fn chained_negation() {
    let e = compile(vec![Token::Not, Token::Not, atom(400)]).unwrap();
    assert_eq!(e.to_string(), "!!0.4");
    assert_eq!(e.to_value().as_raw(), 400);
}

#[test]
fn parens_override_precedence() {
    let grouped = compile(vec![
        Token::LParen,
        atom(100),
        Token::Or,
        atom(200),
        Token::RParen,
        Token::And,
        atom(300),
    ])
    .unwrap();
    assert_eq!(grouped.to_string(), "((0.1 | 0.2) & 0.3)");

    let plain = compile(vec![atom(100), Token::Or, atom(200), Token::And, atom(300)]).unwrap();
    assert_eq!(plain.to_string(), "(0.1 | (0.2 & 0.3))");
}

#[test]
fn empty_sequence_is_rejected() {
    assert_eq!(compile::<Hamacher1>(vec![]).unwrap_err(), CompileError::MissingOperand);
}

#[test]
fn leading_operator_is_rejected() {
    assert_eq!(
        compile(vec![Token::Or, atom(100)]).unwrap_err(),
        CompileError::MissingOperand
    );
}

#[test]
fn trailing_operator_is_rejected() {
    assert_eq!(
        compile(vec![atom(100), Token::And]).unwrap_err(),
        CompileError::MissingOperand
    );
}

#[test]
fn consecutive_operators_are_rejected() {
    assert_eq!(
        compile(vec![atom(100), Token::And, Token::And, atom(200)]).unwrap_err(),
        CompileError::MissingOperand
    );
    assert_eq!(
        compile(vec![atom(100), Token::Or, Token::And, atom(200)]).unwrap_err(),
        CompileError::MissingOperand
    );
}

#[test]
fn unclosed_paren_is_rejected() {
    assert_eq!(
        compile(vec![Token::LParen, atom(100)]).unwrap_err(),
        CompileError::UnmatchedParen
    );
    assert_eq!(
        compile(vec![Token::LParen, atom(100), Token::Or, atom(200)]).unwrap_err(),
        CompileError::UnmatchedParen
    );
}

#[test]
fn stray_tokens_are_rejected() {
    assert_eq!(
        compile(vec![atom(100), Token::RParen]).unwrap_err(),
        CompileError::UnexpectedToken
    );
    assert_eq!(
        compile(vec![atom(100), atom(200)]).unwrap_err(),
        CompileError::UnexpectedToken
    );
    assert_eq!(
        compile(vec![Token::LParen, atom(100), atom(200), Token::RParen]).unwrap_err(),
        CompileError::UnexpectedToken
    );
}

#[test]
fn compiled_tree_round_trips() {
    // Compile a tree, flatten it back to fully parenthesized tokens by
    // hand, and compile again: shape, rendering and value all survive.
    let first = compile(vec![
        atom(100),
        Token::Or,
        atom(600),
        Token::And,
        Token::Not,
        atom(400),
    ])
    .unwrap();
    assert_eq!(first.to_string(), "(0.1 | (0.6 & !0.4))");

    let again = compile(vec![
        Token::LParen,
        atom(100),
        Token::Or,
        Token::LParen,
        atom(600),
        Token::And,
        Token::Not,
        atom(400),
        Token::RParen,
        Token::RParen,
    ])
    .unwrap();
    assert_eq!(again.to_string(), first.to_string());
    assert_eq!(again.to_value().as_raw(), first.to_value().as_raw());
}
