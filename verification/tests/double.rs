use mongo_collections::double::Double;

fn d(v: f64) -> Double {
    Double::from_bits(v.to_bits())
}

#[test]
fn doubles_are_compared_as_numbers() {
    assert!(d(1.5).same(&d(1.5)));
    assert!(!d(1.5).same(&d(2.5)));
    assert!(d(0.0).same(&d(-0.0)));
    assert!(d(-0.0).same(&d(0.0)));
    assert!(!d(f64::NAN).same(&d(f64::NAN)));
    assert!(!d(f64::NAN).same(&d(1.0)));
    assert!(d(f64::INFINITY).same(&d(f64::INFINITY)));
    assert!(!d(f64::INFINITY).same(&d(f64::NEG_INFINITY)));
    assert!(!d(180.0).same(&d(-180.0)));
}

#[test]
fn double_kinds_are_read_from_the_bits() {
    assert!(d(0.0).zero());
    assert!(d(-0.0).zero());
    assert!(!d(1.0).zero());
    assert!(d(f64::NAN).nan());
    assert!(!d(f64::INFINITY).nan());
    assert!(!d(3.25).nan());
    assert!(d(3.25).finite());
    assert!(d(f64::MAX).finite());
    assert!(d(f64::MIN_POSITIVE / 2.0).finite());
    assert!(!d(f64::INFINITY).finite());
    assert!(!d(f64::NEG_INFINITY).finite());
    assert!(!d(f64::NAN).finite());
}

#[test]
fn double_bits_come_back() {
    for v in [0.0, -0.0, 1.0, -180.0, 180.0, 1e300, f64::MIN_POSITIVE] {
        assert_eq!(f64::from_bits(d(v).to_bits()).to_bits(), v.to_bits());
    }
    assert_eq!(d(180.0).to_bits(), 0x4066_8000_0000_0000);
    assert_eq!(d(-180.0).to_bits(), 0xc066_8000_0000_0000);
}
