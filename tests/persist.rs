use campaign_tracker::persist::{
    add_issues_closed, add_issues_comments, add_issues_open, add_project_statement,
    add_pull_request, append_issue_statement, closed_issue_row, open_issue_row,
    project_exists_query, pull_request_row, ProjectStep, ProjectTracker, SqlParam, SqlValue,
    ADD_PROJECT_SQL, APPEND_ISSUE_SQL, OPEN_ISSUE_SQL, PROJECT_EXISTS_SQL,
};
use campaign_tracker::records::{CloseOuterIssue, OuterIssue, SimplePull};

fn text_of(p: &SqlParam) -> &str {
    match &p.value {
        SqlValue::Text(t) => t.as_str(),
        SqlValue::Int(_) => panic!("integer parameter {}", p.name),
    }
}

#[test]
fn project_statements() {
    let probe = project_exists_query("https://h/o/r");
    assert_eq!(probe.text, PROJECT_EXISTS_SQL);
    assert_eq!(probe.params.len(), 1);
    assert_eq!(probe.params[0].name, "project_id");
    assert_eq!(text_of(&probe.params[0]), "https://h/o/r");

    let add = add_project_statement("https://h/o/r", "https://a/o.png", "https://h/o/r/issues/1");
    assert_eq!(add.text, ADD_PROJECT_SQL);
    assert_eq!(text_of(&add.params[2]), "[\"https://h/o/r/issues/1\"]");

    let append = append_issue_statement("https://h/o/r", "https://h/o/r/issues/2");
    assert_eq!(append.text, APPEND_ISSUE_SQL);
    assert_eq!(append.params[0].name, "issue_id");
    assert_eq!(text_of(&append.params[0]), "https://h/o/r/issues/2");
    assert_eq!(text_of(&append.params[1]), "https://h/o/r");
}

#[test]
fn open_issue_statement() {
    let s = add_issues_open("u", "p", "t", "d", 7, "a");
    assert_eq!(s.text, OPEN_ISSUE_SQL);
    let names: Vec<&str> = s.params.iter().map(|p| p.name.as_str()).collect();
    assert_eq!(names, vec!["issue_id", "project_id", "issue_title", "issue_description", "repo_stars", "repo_avatar"]);
    assert_eq!(s.params[4].value, SqlValue::Int(7));
    let rec = OuterIssue {
        title: "t".to_string(),
        url: "u".to_string(),
        author: "x".to_string(),
        body: "d".to_string(),
        repository: "p".to_string(),
        repository_stars: 7,
        repository_avatar: "a".to_string(),
        issue_labels: vec![],
        comments: vec![],
    };
    assert_eq!(open_issue_row(&rec), s);
}

#[test]
fn closed_issue_statement_encodes_assignees() {
    let s = add_issues_closed("u", &vec!["a\"b".to_string(), "c".to_string()], "pr");
    assert_eq!(text_of(&s.params[1]), "[\"a\\\"b\",\"c\"]");
    assert_eq!(text_of(&s.params[2]), "pr");
    let empty = add_issues_closed("u", &vec![], "");
    assert_eq!(text_of(&empty.params[1]), "[]");
}

#[test]
fn closed_issue_row_credits_closer() {
    let mut rec = CloseOuterIssue {
        title: String::new(),
        url: "https://h/o/r/issues/9".to_string(),
        author: String::new(),
        body: String::new(),
        repository: String::new(),
        repository_stars: 0,
        issue_labels: vec![],
        comments: vec![],
        close_reason: "COMPLETED".to_string(),
        close_pull_request: "https://h/o/r/pull/10".to_string(),
        close_author: "bob".to_string(),
    };
    let s = closed_issue_row(&rec);
    assert_eq!(text_of(&s.params[0]), "https://h/o/r/issues/9");
    assert_eq!(text_of(&s.params[1]), "[\"bob\"]");
    assert_eq!(text_of(&s.params[2]), "https://h/o/r/pull/10");
    rec.close_author = String::new();
    assert_eq!(text_of(&closed_issue_row(&rec).params[1]), "[]");
}

#[test]
fn comment_statement_takes_first_comment() {
    assert_eq!(add_issues_comments("u", &vec![]), None);
    let s = add_issues_comments("u", &vec!["alice: hi".to_string(), "bob: yo".to_string()]).unwrap();
    assert_eq!(text_of(&s.params[1]), "alice: hi");
}

#[test]
fn pull_request_statements() {
    let s = add_pull_request("p", "t", "a", "r", "m", &vec!["i1".to_string()], "merged");
    assert_eq!(text_of(&s.params[5]), "[\"i1\"]");
    assert_eq!(text_of(&s.params[6]), "merged");
    let mut pull = SimplePull {
        title: "t".to_string(),
        url: "p".to_string(),
        author: "a".to_string(),
        connected_issues: vec![],
        labels: vec![],
        reviews: vec![],
        merged_by: None,
    };
    let row = pull_request_row(&pull, "r");
    assert_eq!(text_of(&row.params[0]), "p");
    assert_eq!(text_of(&row.params[3]), "r");
    assert_eq!(text_of(&row.params[4]), "");
    assert_eq!(text_of(&row.params[5]), "[]");
    assert_eq!(text_of(&row.params[6]), "open");
    pull.merged_by = Some("m".to_string());
    pull.connected_issues = vec!["i9".to_string()];
    let row = pull_request_row(&pull, "r");
    assert_eq!(text_of(&row.params[4]), "m");
    assert_eq!(text_of(&row.params[5]), "[\"i9\"]");
    assert_eq!(text_of(&row.params[6]), "merged");
}

#[test]
fn probe_precedes_project_creation() {
    let mut t = ProjectTracker::new();
    assert_eq!(t.next_step("repo-a", "issue-1"), ProjectStep::CheckExists);
    assert_eq!(t.after_check(false), ProjectStep::CreateProject);
    t.record("repo-a", "issue-1");
    assert_eq!(t.next_step("repo-a", "issue-2"), ProjectStep::AppendIssue);
    t.record("repo-a", "issue-2");
    assert_eq!(t.next_step("repo-a", "issue-1"), ProjectStep::Skip);
    assert_eq!(t.next_step("repo-b", "issue-3"), ProjectStep::CheckExists);
    assert_eq!(t.after_check(true), ProjectStep::AppendIssue);
    t.record("repo-b", "issue-3");
    assert_eq!(t.next_step("repo-b", "issue-4"), ProjectStep::AppendIssue);
}

#[test]
fn failed_create_probes_again() {
    let t = ProjectTracker::new();
    assert_eq!(t.next_step("repo-c", "issue-5"), ProjectStep::CheckExists);
    assert_eq!(t.after_check(false), ProjectStep::CreateProject);
    // the write failed, so nothing is recorded
    assert_eq!(t.next_step("repo-c", "issue-6"), ProjectStep::CheckExists);
    assert_eq!(t.next_step("repo-c", "issue-5"), ProjectStep::CheckExists);
}
