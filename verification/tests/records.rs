use lang_demos::records::{hygienic_macros, Bar, Baz, Foo};

#[test]
fn foo_accessor_returns_first_field() {
    let foo = Foo::new(7, 9);
    assert_eq!(foo.some_method(), 7);
}

#[test]
fn bar_accessor_returns_first_field() {
    let bar = Bar::new(-3, 11);
    assert_eq!(bar.some_method(), -3);
}

#[test]
fn baz_accessor_returns_first_field() {
    let baz = Baz::new(i32::MAX, i32::MIN);
    assert_eq!(baz.some_method(), i32::MAX);
}

#[test]
fn the_three_records_read_back_their_first_fields() {
    assert_eq!(hygienic_macros(), (1, 3, 5));
}
