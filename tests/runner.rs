use git_maintenance::runner::{Action, Event, GitOperation, Maintenance, Phase};

fn plain() {
    colored::control::set_override(false);
}

/// Drives a fresh machine for `repo` up to the point where the stash is counted.
fn until_count(repo: &str, cwd: &str) -> Maintenance {
    let mut m = Maintenance::new(repo.to_string());
    assert!(matches!(m.step(Event::Begin), Action::SaveDir));
    match m.step(Event::DirSaved(cwd.to_string())) {
        Action::EnterDir(d) => assert_eq!(d, repo),
        other => panic!("unexpected {other:?}"),
    }
    assert!(matches!(m.step(Event::StepDone), Action::Run(GitOperation::Gc)));
    assert!(matches!(m.step(Event::StepDone), Action::Run(GitOperation::Prune)));
    assert!(matches!(m.step(Event::StepDone), Action::CountStash));
    m
}

#[test]
fn empty_stash_restores_directory_without_warning() {
    plain();
    let mut m = until_count("a", "/home/me");
    match m.step(Event::StashOutput(b"       0\n".to_vec())) {
        Action::RestoreDir(d) => assert_eq!(d, "/home/me"),
        other => panic!("unexpected {other:?}"),
    }
    assert!(matches!(m.step(Event::StepDone), Action::Finish));
    assert_eq!(m.phase, Phase::Done);
    assert!(matches!(m.step(Event::StepDone), Action::Finish));
}

#[test]
fn single_stash_entry_warns_then_restores() {
    plain();
    let mut m = until_count("a", "/home/me");
    match m.step(Event::StashOutput(b"1\n".to_vec())) {
        Action::Print(line) => assert_eq!(line, "a has 1 stash entry"),
        other => panic!("unexpected {other:?}"),
    }
    match m.step(Event::StepDone) {
        Action::RestoreDir(d) => assert_eq!(d, "/home/me"),
        other => panic!("unexpected {other:?}"),
    }
    assert!(matches!(m.step(Event::StepDone), Action::Finish));
}

#[test]
fn several_stash_entries_use_plural() {
    plain();
    let mut m = until_count("lib/x", "/w");
    match m.step(Event::StashOutput(b"4\n".to_vec())) {
        Action::Print(line) => assert_eq!(line, "lib/x has 4 stash entries"),
        other => panic!("unexpected {other:?}"),
    }
}

#[test]
fn missing_directory_aborts() {
    let mut m = Maintenance::new("nope".to_string());
    m.step(Event::Begin);
    m.step(Event::DirSaved("/w".to_string()));
    match m.step(Event::Failed) {
        Action::Abort(msg) => assert_eq!(msg, "No such directory: nope"),
        other => panic!("unexpected {other:?}"),
    }
    assert_eq!(m.phase, Phase::Aborted);
    assert!(matches!(m.step(Event::StepDone), Action::Finish));
}

#[test]
fn failed_launches_abort_with_repository_name() {
    let mut m = Maintenance::new("r".to_string());
    m.step(Event::Begin);
    m.step(Event::DirSaved("/w".to_string()));
    m.step(Event::StepDone);
    match m.step(Event::Failed) {
        Action::Abort(msg) => assert_eq!(msg, "Failed to clean r"),
        other => panic!("unexpected {other:?}"),
    }
    let mut m = Maintenance::new("r".to_string());
    m.step(Event::Begin);
    m.step(Event::DirSaved("/w".to_string()));
    m.step(Event::StepDone);
    m.step(Event::StepDone);
    match m.step(Event::Failed) {
        Action::Abort(msg) => assert_eq!(msg, "Failed to prune branches from r"),
        other => panic!("unexpected {other:?}"),
    }
}

#[test]
fn unreadable_count_aborts() {
    let mut m = until_count("r", "/w");
    match m.step(Event::StashOutput(b"oops".to_vec())) {
        Action::Abort(msg) => assert_eq!(msg, "Failed to count stash entries on r"),
        other => panic!("unexpected {other:?}"),
    }
}

#[test]
fn failed_restore_names_saved_directory() {
    let mut m = until_count("r", "/home/me");
    m.step(Event::StashOutput(b"0".to_vec()));
    match m.step(Event::Failed) {
        Action::Abort(msg) => assert_eq!(msg, "Failed to return to /home/me"),
        other => panic!("unexpected {other:?}"),
    }
}

#[test]
fn git_arguments() {
    assert_eq!(GitOperation::Gc.arguments(), vec!["gc", "--aggressive"]);
    assert_eq!(GitOperation::Prune.arguments(), vec!["fetch", "--prune"]);
    assert_eq!(GitOperation::StashList.arguments(), vec!["stash", "list"]);
}

#[test]
fn stash_listing_that_cannot_start_aborts() {
    let mut m = until_count("r", "/w");
    match m.step(Event::ListingFailed) {
        Action::Abort(msg) => assert_eq!(msg, "Failed to run git stash list on r"),
        other => panic!("unexpected {other:?}"),
    }
    assert_eq!(m.phase, Phase::Aborted);
}

#[test]
fn line_counter_that_cannot_start_aborts() {
    let mut m = until_count("r", "/w");
    match m.step(Event::Failed) {
        Action::Abort(msg) => assert_eq!(msg, "Failed to count stash entries on r"),
        other => panic!("unexpected {other:?}"),
    }
}
