use git_maintenance::warning::{get_stash_warning_message, int_to_text, join_four_words, stash_noun, stash_warning_for};

fn plain() {
    colored::control::set_override(false);
}

#[test]
fn warning_uses_singular_for_one_entry() {
    plain();
    assert_eq!(get_stash_warning_message("myrepo", 1), "myrepo has 1 stash entry");
}

#[test]
fn warning_uses_plural_for_several_entries() {
    plain();
    assert_eq!(get_stash_warning_message("myrepo", 2), "myrepo has 2 stash entries");
    assert_eq!(get_stash_warning_message("../other", 12), "../other has 12 stash entries");
}

#[test]
fn no_warning_for_empty_stash() {
    plain();
    assert!(stash_warning_for("myrepo", 0).is_none());
    assert!(stash_warning_for("myrepo", -1).is_none());
}

#[test]
fn warning_for_nonempty_stash() {
    plain();
    assert_eq!(stash_warning_for("r", 1).as_deref(), Some("r has 1 stash entry"));
    assert_eq!(stash_warning_for("r", 7).as_deref(), Some("r has 7 stash entries"));
}

#[test]
fn stash_noun_wording() {
    assert_eq!(stash_noun(1), "stash entry");
    assert_eq!(stash_noun(0), "stash entries");
    assert_eq!(stash_noun(2), "stash entries");
}

#[test]
fn integers_written_in_decimal() {
    assert_eq!(int_to_text(0), "0");
    assert_eq!(int_to_text(7), "7");
    assert_eq!(int_to_text(305), "305");
    assert_eq!(int_to_text(-42), "-42");
    assert_eq!(int_to_text(i32::MAX), "2147483647");
    assert_eq!(int_to_text(i32::MIN), "-2147483648");
}

#[test]
fn four_words_joined_by_spaces() {
    assert_eq!(join_four_words("a", "bc", "", "d"), "a bc  d");
}
