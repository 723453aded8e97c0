use fuzzy_systems::tags::{TagA, TagB, TagC, TagD};
use fuzzy_systems::{compile, Expr, ExprValue, Hamacher1, Token};

/// The raw fixed-point form of a degree written as a float.
fn raw(v: f64) -> u32 {
    (v * 1000.0).round() as u32
}

/// The evaluated degree of an expression, back as a float.
fn value_of<E: Expr<Hamacher1>>(e: &E) -> f64 {
    e.to_value().as_raw() as f64 / 1000.0
}

fn tok<E: Expr<Hamacher1>>(e: &E) -> Token<Hamacher1> {
    Token::Atom(e.to_tree())
}

#[test]
fn basic() {
    let a = ExprValue::<Hamacher1>::new(raw(0.1));
    let b = ExprValue::new(raw(0.6));
    let c = ExprValue::new(raw(0.4));
    let d = a.or(b).and(c.not());

    let string = d.to_string();
    let value = value_of(&d);

    assert_eq!(string, "((0.1 | 0.6) & !0.4)");
    assert!((value - 0.384).abs() < 0.0001);
}

#[test]
fn ops() {
    let a = ExprValue::<Hamacher1>::new(raw(0.1));
    let b = ExprValue::new(raw(0.6));
    let c = ExprValue::new(raw(0.4));
    let d = (a | b) & !c;

    let string = d.to_string();
    let value = value_of(&d);

    assert_eq!(string, "((0.1 | 0.6) & !0.4)");
    assert!((value - 0.384).abs() < 0.0001);
}

#[test]
fn named() {
    let a = ExprValue::<Hamacher1>::new(raw(0.1)).with_tag("a");
    let b = ExprValue::new(raw(0.6)).with_tag("b");
    let c = ExprValue::new(raw(0.4)).with_tag("c");
    let d = a.or(b).and(c.not());

    let string = d.to_string();
    let value = value_of(&d);

    assert_eq!(string, "((a | b) & !c)");
    assert!((value - 0.384).abs() < 0.0001);
}

#[test]
fn order_small() {
    let a = ExprValue::<Hamacher1>::new(raw(0.1)).with_tag(TagA);
    let b = ExprValue::new(raw(0.2)).with_tag(TagB);
    let c = ExprValue::new(raw(0.3)).with_tag(TagC);

    let d = compile(vec![tok(&a), Token::And, tok(&b), Token::Or, tok(&c)]).unwrap();
    assert_eq!(d.to_string(), "((a & b) | c)");

    let d = compile(vec![Token::Not, tok(&a), Token::And, tok(&b), Token::Or, tok(&c)]).unwrap();
    assert_eq!(d.to_string(), "((!a & b) | c)");

    let d = compile(vec![tok(&a), Token::And, Token::Not, tok(&b), Token::Or, tok(&c)]).unwrap();
    assert_eq!(d.to_string(), "((a & !b) | c)");

    let d = compile(vec![tok(&a), Token::And, tok(&b), Token::Or, Token::Not, tok(&c)]).unwrap();
    assert_eq!(d.to_string(), "((a & b) | !c)");

    let d = compile(vec![tok(&a), Token::Or, tok(&b), Token::And, tok(&c)]).unwrap();
    assert_eq!(d.to_string(), "(a | (b & c))");

    let d = compile(vec![Token::Not, tok(&a), Token::Or, tok(&b), Token::And, tok(&c)]).unwrap();
    assert_eq!(d.to_string(), "(!a | (b & c))");

    let d = compile(vec![tok(&a), Token::Or, Token::Not, tok(&b), Token::And, tok(&c)]).unwrap();
    assert_eq!(d.to_string(), "(a | (!b & c))");

    let d = compile(vec![tok(&a), Token::Or, tok(&b), Token::And, Token::Not, tok(&c)]).unwrap();
    assert_eq!(d.to_string(), "(a | (b & !c))");
}

#[test]
fn order_big() {
    let a = ExprValue::<Hamacher1>::new(raw(0.1)).with_tag(TagA);
    let b = ExprValue::new(raw(0.2)).with_tag(TagB);
    let c = ExprValue::new(raw(0.3)).with_tag(TagC);
    let d = ExprValue::new(raw(0.4)).with_tag(TagD);

    let e = compile(vec![tok(&a), Token::Or, tok(&b), Token::Or, tok(&c), Token::Or, tok(&d)])
        .unwrap();
    assert_eq!(e.to_string(), "(((a | b) | c) | d)");

    let e = compile(vec![tok(&a), Token::Or, tok(&b), Token::And, tok(&c), Token::Or, tok(&d)])
        .unwrap();
    assert_eq!(e.to_string(), "((a | (b & c)) | d)");

    let e = compile(vec![
        tok(&a),
        Token::Or,
        Token::Not,
        tok(&b),
        Token::And,
        tok(&c),
        Token::Or,
        tok(&d),
    ])
    .unwrap();
    assert_eq!(e.to_string(), "((a | (!b & c)) | d)");

    let e = compile(vec![
        tok(&a),
        Token::Or,
        tok(&b),
        Token::And,
        Token::Not,
        tok(&c),
        Token::Or,
        tok(&d),
    ])
    .unwrap();
    assert_eq!(e.to_string(), "((a | (b & !c)) | d)");

    let e = compile(vec![
        tok(&a),
        Token::Or,
        tok(&b),
        Token::And,
        tok(&c),
        Token::Or,
        Token::Not,
        tok(&d),
    ])
    .unwrap();
    assert_eq!(e.to_string(), "((a | (b & c)) | !d)");

    let e = compile(vec![
        Token::LParen,
        tok(&a),
        Token::Or,
        tok(&b),
        Token::RParen,
        Token::And,
        tok(&c),
        Token::Or,
        tok(&d),
    ])
    .unwrap();
    assert_eq!(e.to_string(), "(((a | b) & c) | d)");

    let e = compile(vec![
        tok(&a),
        Token::Or,
        tok(&b),
        Token::And,
        Token::LParen,
        tok(&c),
        Token::Or,
        tok(&d),
        Token::RParen,
    ])
    .unwrap();
    assert_eq!(e.to_string(), "(a | (b & (c | d)))");

    let e = compile(vec![
        Token::LParen,
        tok(&a),
        Token::Or,
        tok(&b),
        Token::RParen,
        Token::And,
        Token::LParen,
        tok(&c),
        Token::Or,
        tok(&d),
        Token::RParen,
    ])
    .unwrap();
    assert_eq!(e.to_string(), "((a | b) & (c | d))");

    let e = compile(vec![tok(&a), Token::Or, tok(&b), Token::And, tok(&c), Token::And, tok(&d)])
        .unwrap();
    assert_eq!(e.to_string(), "(a | ((b & c) & d))");

    let e = compile(vec![
        tok(&a),
        Token::Or,
        Token::Not,
        tok(&b),
        Token::And,
        tok(&c),
        Token::And,
        tok(&d),
    ])
    .unwrap();
    assert_eq!(e.to_string(), "(a | ((!b & c) & d))");

    let e = compile(vec![
        tok(&a),
        Token::Or,
        tok(&b),
        Token::And,
        Token::Not,
        tok(&c),
        Token::And,
        tok(&d),
    ])
    .unwrap();
    assert_eq!(e.to_string(), "(a | ((b & !c) & d))");

    let e = compile(vec![
        tok(&a),
        Token::Or,
        tok(&b),
        Token::And,
        tok(&c),
        Token::And,
        Token::Not,
        tok(&d),
    ])
    .unwrap();
    assert_eq!(e.to_string(), "(a | ((b & c) & !d))");
}

fn size_of<T>(_val: T) -> usize {
    std::mem::size_of::<T>()
}

#[test]
fn zero_cost_tag() {
    let a = ExprValue::<Hamacher1>::new(raw(0.1));
    let a_tagged = a.clone().with_tag(TagA);
    let a_named = a.clone().with_tag("a");

    assert_eq!(size_of(a), size_of(a_tagged));
    assert_ne!(size_of(a), size_of(a_named));
}

#[test]
fn tag_keeps_value() {
    let plain = ExprValue::<Hamacher1>::new(raw(0.7));
    let tagged = ExprValue::<Hamacher1>::new(raw(0.7)).with_tag("x");
    assert_eq!(plain.to_value().as_raw(), tagged.to_value().as_raw());
    assert_eq!(plain.to_string(), "0.7");
    assert_eq!(tagged.to_string(), "x");
}

#[test]
fn either_transparent() {
    let a = ExprValue::<Hamacher1>::new(raw(0.4));
    let b = ExprValue::new(raw(0.6));
    let c = ExprValue::new(raw(0.4));

    let or_tree = a.or(b);
    let and_tree = a.and(c.not());

    for flag in [true, false] {
        let d = if flag { or_tree.as_left() } else { and_tree.as_right() };
        if flag {
            assert_eq!(d.to_value().as_raw(), or_tree.to_value().as_raw());
            assert_eq!(d.to_string(), or_tree.to_string());
        } else {
            assert_eq!(d.to_value().as_raw(), and_tree.to_value().as_raw());
            assert_eq!(d.to_string(), and_tree.to_string());
        }
    }
}

#[test]
fn value_in_unit_interval() {
    let a = ExprValue::<Hamacher1>::new(0);
    let b = ExprValue::new(1000);
    let c = ExprValue::new(raw(0.5));
    let d = (a | b) & !(c & b);
    let v = d.to_value().as_raw();
    assert!(v <= 1000);
}
