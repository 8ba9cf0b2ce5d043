use git_maintenance::warning::{get_stash_warning_message, stash_warning_for};

fn coloured() {
    colored::control::set_override(true);
}

#[test]
fn coloured_warning_paints_each_word() {
    coloured();
    assert_eq!(
        get_stash_warning_message("repo", 1),
        "\x1b[33mrepo\x1b[0m \x1b[33mhas\x1b[0m \x1b[33m1\x1b[0m \x1b[33mstash entry\x1b[0m"
    );
}

#[test]
fn coloured_warning_for_several_entries() {
    coloured();
    assert_eq!(
        stash_warning_for("r", 3).as_deref(),
        Some("\x1b[33mr\x1b[0m \x1b[33mhas\x1b[0m \x1b[33m3\x1b[0m \x1b[33mstash entries\x1b[0m")
    );
}
