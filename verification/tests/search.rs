use lang_demos::search::const_default;

#[test]
fn finds_present_value() {
    assert!(const_default(2));
}

#[test]
fn rejects_absent_value() {
    assert!(!const_default(99));
}

#[test]
fn finds_every_value_of_the_sequence() {
    assert!(const_default(1));
    assert!(const_default(2));
    assert!(const_default(3));
    assert!(const_default(4));
    assert!(const_default(5));
}

#[test]
fn rejects_values_beside_the_sequence() {
    assert!(!const_default(0));
    assert!(!const_default(6));
    assert!(!const_default(u32::MAX));
}
