use pr_commit_table::request::{
    authorization_of, build_request, check_status, url_of, Endpoint, FetchError, USER_AGENT,
};
use pr_commit_table::run::{Event, Run};
use pr_commit_table::table::{commit_table_lines, Commit, PullRequestSummary};

fn title(t: &str) -> Result<PullRequestSummary, FetchError> {
    Ok(PullRequestSummary { title: t.to_string() })
}

fn one_commit(sha: &str) -> Vec<Commit> {
    vec![Commit {
        sha: sha.to_string(),
        author_name: "Alice".to_string(),
        author_date: "2024-01-01".to_string(),
        message: "m".to_string(),
    }]
}

#[test]
fn tables_come_in_list_order() {
    let mut run = Run::new(vec![3, 9]);
    let mut printed: Vec<Vec<String>> = Vec::new();
    assert_eq!(run.next_fetch(), Some((3, Endpoint::Title)));
    assert!(run.handle(Event::Title(title("A"))).is_none());
    assert_eq!(run.next_fetch(), Some((3, Endpoint::Commits)));
    printed.push(run.handle(Event::Commits(Ok(one_commit("aaa")))).unwrap());
    assert_eq!(run.next_fetch(), Some((9, Endpoint::Title)));
    assert!(run.handle(Event::Title(title("B"))).is_none());
    assert_eq!(run.next_fetch(), Some((9, Endpoint::Commits)));
    printed.push(run.handle(Event::Commits(Ok(Vec::new()))).unwrap());
    assert_eq!(run.next_fetch(), None);
    assert_eq!(run.outcome(), Some(Ok(())));
    assert_eq!(printed[0], commit_table_lines(3, "A", &one_commit("aaa")));
    assert_eq!(printed[1], commit_table_lines(9, "B", &Vec::new()));
}

#[test]
fn failed_title_fetch_stops_before_later_numbers() {
    let mut run = Run::new(vec![1, 2]);
    assert_eq!(run.next_fetch(), Some((1, Endpoint::Title)));
    let status = check_status(404).unwrap_err();
    assert!(run.handle(Event::Title(Err(status))).is_none());
    assert_eq!(run.next_fetch(), None);
    assert_eq!(run.outcome(), Some(Err(FetchError::Status(404))));
    assert!(run.handle(Event::Title(title("late"))).is_none());
    assert_eq!(run.next_fetch(), None);
}

#[test]
fn failed_commits_fetch_prints_no_partial_table() {
    let mut run = Run::new(vec![1, 2]);
    assert!(run.handle(Event::Title(title("T"))).is_none());
    assert!(run.handle(Event::Commits(Err(FetchError::Status(500)))).is_none());
    assert_eq!(run.next_fetch(), None);
    assert_eq!(run.outcome(), Some(Err(FetchError::Status(500))));
}

#[test]
fn unexpected_answer_changes_nothing() {
    let mut run = Run::new(vec![8]);
    assert!(run.handle(Event::Commits(Ok(one_commit("x")))).is_none());
    assert_eq!(run.next_fetch(), Some((8, Endpoint::Title)));
    assert_eq!(run.outcome(), None);
}

#[test]
fn empty_list_is_finished() {
    let run = Run::new(Vec::new());
    assert_eq!(run.next_fetch(), None);
    assert_eq!(run.outcome(), Some(Ok(())));
}

#[test]
fn status_codes() {
    assert_eq!(check_status(200), Ok(()));
    assert_eq!(check_status(204), Ok(()));
    assert_eq!(check_status(299), Ok(()));
    assert_eq!(check_status(199), Err(FetchError::Status(199)));
    assert_eq!(check_status(301), Err(FetchError::Status(301)));
    assert_eq!(check_status(404), Err(FetchError::Status(404)));
}

#[test]
fn urls() {
    assert_eq!(
        url_of("octo", "proj", 42, Endpoint::Title),
        "https://api.github.com/repos/octo/proj/pulls/42"
    );
    assert_eq!(
        url_of("octo", "proj", 42, Endpoint::Commits),
        "https://api.github.com/repos/octo/proj/pulls/42/commits"
    );
}

#[test]
fn authorization_header() {
    assert_eq!(authorization_of("abc123"), Ok("token abc123".to_string()));
    assert_eq!(authorization_of("tab\tok"), Ok("token tab\tok".to_string()));
    assert_eq!(authorization_of("bad\ntoken"), Err(FetchError::InvalidToken));
    assert_eq!(authorization_of("del\u{7f}"), Err(FetchError::InvalidToken));
}

#[test]
fn request_for_commits() {
    let r = build_request("o", "r", 5, "tkn", Endpoint::Commits).unwrap();
    assert_eq!(r.url, "https://api.github.com/repos/o/r/pulls/5/commits");
    assert_eq!(r.authorization, "token tkn");
    assert_eq!(r.user_agent, USER_AGENT);
    assert_eq!(USER_AGENT, "rust-client");
    assert!(build_request("o", "r", 5, "a\rb", Endpoint::Title).is_err());
}
