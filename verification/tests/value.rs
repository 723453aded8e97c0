use fuzzy_systems::{Expr, Membership, Value, YagerInf, UNIT};

/// The raw fixed-point form of a degree written as a float.
fn raw(v: f64) -> u32 {
    (v * 1000.0).round() as u32
}

#[test]
fn membership_ops() {
    let x = Membership::<YagerInf>::new(raw(0.5));
    let y = Membership::new(raw(0.3));
    assert_eq!((!y).as_raw() as f64 / 1000.0, 0.7);
    assert_eq!((x & y).as_raw() as f64 / 1000.0, 0.3);
    assert_eq!((x | y).as_raw() as f64 / 1000.0, 0.5);
}

#[test]
fn try_new_checks_the_interval() {
    assert!(Membership::<YagerInf>::try_new(0).is_some());
    assert!(Membership::<YagerInf>::try_new(UNIT).is_some());
    assert_eq!(Membership::<YagerInf>::try_new(500).unwrap().as_raw(), 500);
    assert!(Membership::<YagerInf>::try_new(UNIT + 1).is_none());
    assert!(Membership::<YagerInf>::try_new(u32::MAX).is_none());
}

#[test]
fn with_fit_saturates() {
    assert_eq!(Membership::<YagerInf>::with_fit(1500).as_raw(), 1000);
    assert_eq!(Membership::<YagerInf>::with_fit(u32::MAX).as_raw(), 1000);
    assert_eq!(Membership::<YagerInf>::with_fit(250).as_raw(), 250);
    assert_eq!(Membership::<YagerInf>::with_fit(0).as_raw(), 0);
}

#[test]
fn default_is_false() {
    let m: Membership<YagerInf> = Default::default();
    assert_eq!(m.as_raw(), 0);
}

#[test]
fn decimal_text() {
    let render = |v: u32| Membership::<YagerInf>::new(v).to_string();
    assert_eq!(render(0), "0");
    assert_eq!(render(1000), "1");
    assert_eq!(render(100), "0.1");
    assert_eq!(render(250), "0.25");
    assert_eq!(render(400), "0.4");
    assert_eq!(render(430), "0.43");
    assert_eq!(render(123), "0.123");
    assert_eq!(render(5), "0.005");
    assert_eq!(render(50), "0.05");
    assert_eq!(render(999), "0.999");
    assert_eq!(render(1), "0.001");
}

#[test]
fn to_expr_keeps_the_degree() {
    let m = Membership::<YagerInf>::new(raw(0.5));
    let e = m.to_expr();
    assert_eq!(e.to_value().as_raw(), m.as_raw());
    assert_eq!(e.to_string(), "0.5");
}
