use git_overlay::refresh::{refresh_repos, repo_row, Repo};
use git_overlay::status::{ProbeError, RunOutcome};

fn finished(text: &str) -> RunOutcome {
    RunOutcome::Finished(text.as_bytes().to_vec())
}

fn names(list: &[&str]) -> Vec<String> {
    list.iter().map(|s| s.to_string()).collect()
}

fn content(rows: &[Repo]) -> Vec<(String, String, i32, Option<ProbeError>)> {
    rows.iter().map(|r| (r.name.clone(), r.branch.clone(), r.num_changes, r.error)).collect()
}

#[test]
fn refresh_keeps_order_and_length() {
    let n = names(&["zeta", "alpha", "zeta"]);
    let runs = vec![finished("On branch a\n"), finished("On branch b\n\t"), finished("On branch c\n\t\t")];
    let rows = refresh_repos(&n, &runs);
    assert_eq!(
        content(&rows),
        vec![
            ("zeta".to_string(), "a".to_string(), 0, None),
            ("alpha".to_string(), "b".to_string(), 1, None),
            ("zeta".to_string(), "c".to_string(), 2, None),
        ]
    );
}

#[test]
fn refresh_of_no_repositories() {
    assert!(refresh_repos(&Vec::new(), &Vec::new()).is_empty());
}

#[test]
fn failed_probe_leaves_other_rows() {
    let n = names(&["repoA", "repoB", "repoC"]);
    let runs = vec![finished("On branch main\n\tm: a\n"), finished("not a status\n"), RunOutcome::LaunchFailed];
    let rows = refresh_repos(&n, &runs);
    assert_eq!(
        content(&rows),
        vec![
            ("repoA".to_string(), "main".to_string(), 1, None),
            ("repoB".to_string(), String::new(), 0, Some(ProbeError::BranchNotFound)),
            ("repoC".to_string(), String::new(), 0, Some(ProbeError::ProcessLaunchError)),
        ]
    );
}

#[test]
fn refresh_twice_gives_equal_content() {
    let n = names(&["one", "two"]);
    let runs = vec![finished("On branch main\n\tx\n"), RunOutcome::TimedOut];
    let first = refresh_repos(&n, &runs);
    let second = refresh_repos(&n, &runs);
    assert_eq!(content(&first), content(&second));
}

#[test]
fn row_of_one_repository() {
    let row = repo_row(&"r".to_string(), &finished("On branch topic\n\t\t\t"));
    assert_eq!((row.name.as_str(), row.branch.as_str(), row.num_changes, row.error), ("r", "topic", 3, None));
}
