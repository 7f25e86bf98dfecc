use lang_demos::markers::marker_traits;

#[test]
fn cheap_and_expensive_copies_hold_their_values() {
    let (copy_value, clone_value) = marker_traits();
    assert_eq!(copy_value, 42);
    assert_eq!(clone_value, vec![u8::MAX; 8]);
}
