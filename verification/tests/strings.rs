use lang_demos::strings::{
    cstr_repr, demo_path, matches_a, owned_after_push, owned_copy, str_bytes, str_slice,
    str_slice_bytes, striiiiings,
};

#[test]
fn owned_string_holds_a_after_mutation() {
    let owned = owned_after_push();
    assert_eq!(owned.as_bytes(), b"A");
}

#[test]
fn owned_copy_matches_literal_bytes() {
    let owned2 = owned_copy();
    assert_eq!(owned2.as_bytes(), b"owned string");
}

#[test]
fn slice_bytes_match_literal_bytes() {
    assert_eq!(str_slice(), "This is a string slice, aka &'static str");
    assert_eq!(
        str_slice_bytes(),
        b"This is a string slice, aka &'static str".to_vec()
    );
}

#[test]
fn str_bytes_reads_the_argument() {
    assert_eq!(str_bytes("abc"), vec![97u8, 98u8, 99u8]);
    assert_eq!(str_bytes(""), Vec::<u8>::new());
}

#[test]
fn path_bytes_match_literal_bytes() {
    let path = demo_path();
    assert_eq!(path.text, "/this/is/a/path");
    assert_eq!(path.encoded_bytes(), b"/this/is/a/path".to_vec());
}

#[test]
fn cstr_keeps_one_trailing_nul() {
    let cstr = cstr_repr();
    assert_eq!(cstr.bytes.last(), Some(&0u8));
    assert_eq!(cstr.bytes.len(), b"This is a nul-terminated string".len() + 1);
    assert_eq!(cstr.to_bytes(), b"This is a nul-terminated string".to_vec());
}

#[test]
fn only_the_mutated_string_matches_a() {
    let owned = owned_after_push();
    assert!(matches_a(&owned));
    let owned2 = owned_copy();
    assert!(!matches_a(&owned2));
}

#[test]
fn all_representations_give_their_expected_bytes() {
    let (owned_bytes, owned2, slice_bytes, path_bytes, cstr_bytes, matched) = striiiiings();
    assert_eq!(owned_bytes, b"A".to_vec());
    assert_eq!(owned2, "owned string");
    assert_eq!(slice_bytes, b"This is a string slice, aka &'static str".to_vec());
    assert_eq!(path_bytes, b"/this/is/a/path".to_vec());
    assert_eq!(cstr_bytes, b"This is a nul-terminated string".to_vec());
    assert!(matched);
}
