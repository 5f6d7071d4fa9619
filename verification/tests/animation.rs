// Linear easing, the identity on [0, 1].
fn linear(t: f64) -> f64 {
    t
}

#[test]
fn test_linear_easing() {
    assert_eq!(linear(0.0), 0.0);
    assert_eq!(linear(0.5), 0.5);
    assert_eq!(linear(1.0), 1.0);
    assert_eq!(linear(0.25), 0.25);
}
