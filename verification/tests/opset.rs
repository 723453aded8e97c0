use fuzzy_systems::{
    Hamacher0, Hamacher1, Hamacher2, Membership, Opset, OpsetMarker, Yager1, YagerInf,
};

/// The raw fixed-point form of a degree written as a float.
fn raw(v: f64) -> u32 {
    (v * 1000.0).round() as u32
}

/// The degree back as a float.
fn float_of<S: Opset>(m: Membership<S>) -> f64 {
    m.as_raw() as f64 / 1000.0
}

#[test]
fn and_less_eq_or() {
    // One comparison per named Yager set.
    let x = Membership::<YagerInf>::new(raw(0.5));
    let y = Membership::new(raw(0.3));
    assert!((x & y).as_raw() <= (x | y).as_raw());
    let x = Membership::<YagerInf>::new(raw(0.5));
    let y = Membership::new(raw(0.3));
    assert!((x & y).as_raw() <= (x | y).as_raw());

    let x = Membership::<YagerInf>::new(raw(0.5));
    let y = Membership::new(raw(0.3));
    let x_and_y = float_of(x & y);
    let x_or_y = float_of(x | y);
    assert!(0.0 <= x_and_y);
    assert!(x_and_y <= x_or_y);
    assert!(x_or_y <= 1.0);
}

#[test]
fn yager1_formulas() {
    let a = Membership::<Yager1>::new(raw(0.8));
    let b = Membership::new(raw(0.3));
    assert_eq!(float_of(!a), 0.2);
    assert_eq!(float_of(a | b), 1.0);
    assert_eq!(float_of(a & b), 0.1);
    let c = Membership::<Yager1>::new(raw(0.2));
    let d = Membership::new(raw(0.3));
    assert_eq!(float_of(c | d), 0.5);
    assert_eq!(float_of(c & d), 0.0);
}

#[test]
fn yager_inf_formulas() {
    let a = Membership::<YagerInf>::new(raw(0.8));
    let b = Membership::new(raw(0.3));
    assert_eq!(float_of(!a), 0.2);
    assert_eq!(float_of(a | b), 0.8);
    assert_eq!(float_of(a & b), 0.3);
}

#[test]
fn hamacher0_formulas() {
    let a = Membership::<Hamacher0>::new(raw(0.8));
    let b = Membership::new(raw(0.3));
    // or = (a + b - 2ab) / (1 - ab) = 0.62 / 0.76, in thousandths.
    assert_eq!((a | b).as_raw(), 815);
    // and = ab / (a + b - ab) = 0.24 / 0.86, in thousandths.
    assert_eq!((a & b).as_raw(), 279);
    // The corner cases take the value of the limit.
    let top = Membership::<Hamacher0>::new(1000);
    assert_eq!((top | top).as_raw(), 1000);
    let bottom = Membership::<Hamacher0>::new(0);
    assert_eq!((bottom & bottom).as_raw(), 0);
    assert_eq!((top & bottom).as_raw(), 0);
    assert_eq!((bottom | top).as_raw(), 1000);
}

#[test]
fn hamacher1_formulas() {
    let a = Membership::<Hamacher1>::new(raw(0.8));
    let b = Membership::new(raw(0.3));
    assert_eq!(float_of(!a), 0.2);
    // or = a + b - ab.
    assert_eq!(float_of(a | b), 0.86);
    // and = ab.
    assert_eq!(float_of(a & b), 0.24);
}

#[test]
fn hamacher2_formulas() {
    let a = Membership::<Hamacher2>::new(raw(0.8));
    let b = Membership::new(raw(0.3));
    // or = (a + b) / (1 + ab) = 1.1 / 1.24, in thousandths.
    assert_eq!((a | b).as_raw(), 887);
    // and = ab / (2 - a - b + ab) = 0.24 / 1.14, in thousandths.
    assert_eq!((a & b).as_raw(), 210);
    let top = Membership::<Hamacher2>::new(1000);
    assert_eq!((top | top).as_raw(), 1000);
    assert_eq!((top & top).as_raw(), 1000);
}

#[test]
fn every_opset_stays_in_unit_interval() {
    let values = [0, 1, 499, 999, 1000];
    for &x in &values {
        for &y in &values {
            assert!(Yager1::not(Membership::new(x)).as_raw() <= 1000);
            assert!(Yager1::or(Membership::new(x), Membership::new(y)).as_raw() <= 1000);
            assert!(Yager1::and(Membership::new(x), Membership::new(y)).as_raw() <= 1000);
            assert!(YagerInf::or(Membership::new(x), Membership::new(y)).as_raw() <= 1000);
            assert!(YagerInf::and(Membership::new(x), Membership::new(y)).as_raw() <= 1000);
            assert!(Hamacher0::or(Membership::new(x), Membership::new(y)).as_raw() <= 1000);
            assert!(Hamacher0::and(Membership::new(x), Membership::new(y)).as_raw() <= 1000);
            assert!(Hamacher1::or(Membership::new(x), Membership::new(y)).as_raw() <= 1000);
            assert!(Hamacher1::and(Membership::new(x), Membership::new(y)).as_raw() <= 1000);
            assert!(Hamacher2::or(Membership::new(x), Membership::new(y)).as_raw() <= 1000);
            assert!(Hamacher2::and(Membership::new(x), Membership::new(y)).as_raw() <= 1000);
        }
    }
}

#[test]
fn marker_ops() {
    let marker = OpsetMarker::<Yager1>::new();
    let a = Membership::<Yager1>::new(raw(0.25));
    let b = Membership::new(raw(0.5));
    assert_eq!(float_of(marker.not(a)), 0.75);
    assert_eq!(float_of(marker.or(a, b)), 0.75);
    assert_eq!(float_of(marker.and(a, b)), 0.0);
}

#[test]
fn member_builds_membership() {
    let a = Hamacher1::member(raw(0.1));
    let b = Membership::<Hamacher1>::new(raw(0.1));
    assert_eq!(a.as_raw(), b.as_raw());
}
