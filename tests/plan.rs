use git_maintenance::plan::{choose_source, plan_run, repositories_from_text, RepoSource, RunPlan};

fn names(v: &[&str]) -> Vec<String> {
    v.iter().map(|s| s.to_string()).collect()
}

#[test]
fn nothing_found_reports_and_maintains_nothing() {
    match plan_run(Vec::new()) {
        RunPlan::NothingFound(m) => assert_eq!(m, "No Git repositories found."),
        RunPlan::Maintain(_) => panic!("an empty scan must not maintain anything"),
    }
}

#[test]
fn found_repositories_are_maintained_in_order() {
    match plan_run(names(&["b", "a"])) {
        RunPlan::Maintain(v) => assert_eq!(v, names(&["b", "a"])),
        RunPlan::NothingFound(_) => panic!("repositories were found"),
    }
}

#[test]
fn file_takes_precedence_over_list() {
    match choose_source(Some("repos.txt".to_string()), names(&["a"]), None, false) {
        RepoSource::File(f) => assert_eq!(f, "repos.txt"),
        other => panic!("unexpected source {other:?}"),
    }
}

#[test]
fn list_takes_precedence_over_scan() {
    match choose_source(None, names(&["a", "b"]), Some("/root".to_string()), true) {
        RepoSource::List(v) => assert_eq!(v, names(&["a", "b"])),
        other => panic!("unexpected source {other:?}"),
    }
}

#[test]
fn scan_defaults_to_current_directory() {
    match choose_source(None, Vec::new(), None, true) {
        RepoSource::Scan { root, recursive } => {
            assert_eq!(root, ".");
            assert!(recursive);
        }
        other => panic!("unexpected source {other:?}"),
    }
    match choose_source(None, Vec::new(), Some("/work".to_string()), false) {
        RepoSource::Scan { root, recursive } => {
            assert_eq!(root, "/work");
            assert!(!recursive);
        }
        other => panic!("unexpected source {other:?}"),
    }
}

#[test]
fn one_repository_per_line() {
    assert_eq!(repositories_from_text("a\nb/c\n"), names(&["a", "b/c"]));
    assert_eq!(repositories_from_text("a\r\n\n  \nlast"), names(&["a", "  ", "last"]));
    assert!(repositories_from_text("").is_empty());
    assert!(repositories_from_text("\n\r\n").is_empty());
    assert_eq!(repositories_from_text("dépôt\n"), names(&["dépôt"]));
}
