use git_maintenance::count::parse_stash_count;

#[test]
fn count_with_padding_and_newline() {
    assert_eq!(parse_stash_count(&b"       3\n".to_vec()), Some(3));
    assert_eq!(parse_stash_count(&b"0\n".to_vec()), Some(0));
    assert_eq!(parse_stash_count(&b"\t12 \r\n".to_vec()), Some(12));
}

#[test]
fn count_with_sign() {
    assert_eq!(parse_stash_count(&b"+7".to_vec()), Some(7));
    assert_eq!(parse_stash_count(&b"-2147483648".to_vec()), Some(i32::MIN));
    assert_eq!(parse_stash_count(&b"2147483647".to_vec()), Some(i32::MAX));
}

#[test]
fn count_rejects_what_is_no_integer() {
    assert_eq!(parse_stash_count(&Vec::new()), None);
    assert_eq!(parse_stash_count(&b"   \n".to_vec()), None);
    assert_eq!(parse_stash_count(&b"abc".to_vec()), None);
    assert_eq!(parse_stash_count(&b"1 2".to_vec()), None);
    assert_eq!(parse_stash_count(&b"-".to_vec()), None);
    assert_eq!(parse_stash_count(&b"- 3".to_vec()), None);
}

#[test]
fn count_rejects_values_out_of_range() {
    assert_eq!(parse_stash_count(&b"2147483648".to_vec()), None);
    assert_eq!(parse_stash_count(&b"-2147483649".to_vec()), None);
    assert_eq!(parse_stash_count(&b"99999999999999999999".to_vec()), None);
}
