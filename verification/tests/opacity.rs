use badgen::Opacity;

#[test]
fn test_opacity() {
    // Transparent
    assert_eq!(Opacity::parse("0"), Some(Opacity::raw("0")));
    assert_eq!(Opacity::parse(".0"), Some(Opacity::raw("0")));
    assert_eq!(Opacity::parse(".00"), Some(Opacity::raw("0")));
    assert_eq!(Opacity::parse("0.00"), Some(Opacity::raw("0")));
    // Opaque
    assert_eq!(Opacity::parse("1"), Some(Opacity::raw("1")));
    assert_eq!(Opacity::parse("1.0"), Some(Opacity::raw("1")));
    assert_eq!(Opacity::parse("1.00"), Some(Opacity::raw("1")));
    // Fraction
    assert_eq!(Opacity::parse(".1"), Some(Opacity::raw(".1")));
    assert_eq!(Opacity::parse("0.1"), Some(Opacity::raw(".1")));
    assert_eq!(Opacity::parse("0.11"), Some(Opacity::raw(".11")));
    // Invalid
    assert_eq!(Opacity::parse("2"), None);
    assert_eq!(Opacity::parse("0."), None);
    assert_eq!(Opacity::parse("1."), None);
    assert_eq!(Opacity::parse(".a"), None);
    assert_eq!(Opacity::parse("0.a"), None);
    assert_eq!(Opacity::parse("0.111"), None);
}
