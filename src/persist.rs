//! Writes to the relational store, as statements with named parameters, and
//! the check-then-act rule that keeps project rows free of duplicates.
use crate::records::{CloseOuterIssue, OuterIssue, SimplePull};
use crate::schema::strings_view;
use vstd::prelude::*;

verus! {

#[verifier::external_type_specification]
#[verifier::external_body]
pub struct ExJsonError(serde_json::Error);

/// The JSON array whose elements are the given texts, as JSON strings.
pub uninterp spec fn json_string_array(items: Seq<Seq<char>>) -> Seq<char>;

/// Relies on `serde_json::to_string`: a list of strings becomes the text of
/// a JSON array of those strings. Its only documented failures are a
/// `Serialize` impl that fails and a map with non-string keys; a list of
/// strings has neither, and writing into a byte vector cannot fail.
#[verifier::external_body]
fn json_array_text(items: &Vec<String>) -> (r: Result<String, serde_json::Error>)
    ensures
        r is Ok,
        r matches Ok(t) ==> t@ == json_string_array(strings_view(items@)),
{
    serde_json::to_string(items)
}

/// A value bound to a named parameter of a statement.
#[derive(Clone, Debug, PartialEq, Eq)]
pub enum SqlValue {
    Text(String),
    Int(i64),
}

#[derive(Clone, Debug, PartialEq, Eq)]
pub struct SqlParam {
    pub name: String,
    pub value: SqlValue,
}

/// A statement with its named parameters, in the order the text names them.
#[derive(Clone, Debug, PartialEq, Eq)]
pub struct SqlStatement {
    pub text: String,
    pub params: Vec<SqlParam>,
}

pub const PROJECT_EXISTS_SQL: &'static str = "SELECT 1 FROM projects WHERE project_id = :project_id";

pub const ADD_PROJECT_SQL: &'static str = "INSERT INTO projects (project_id, project_logo, issues_list) VALUES (:project_id, :project_logo, :issues_list)";

pub const APPEND_ISSUE_SQL: &'static str = "UPDATE projects SET issues_list = JSON_ARRAY_APPEND(issues_list, '$', :issue_id) WHERE project_id = :project_id";

pub const OPEN_ISSUE_SQL: &'static str = "INSERT INTO issues_open (issue_id, project_id, issue_title, issue_description, repo_stars, repo_avatar) VALUES (:issue_id, :project_id, :issue_title, :issue_description, :repo_stars, :repo_avatar)";

pub const CLOSED_ISSUE_SQL: &'static str = "INSERT INTO issues_closed (issue_id, issue_assignees, issue_linked_pr) VALUES (:issue_id, :issue_assignees, :issue_linked_pr)";

pub const COMMENT_SQL: &'static str = "INSERT INTO issues_comments (issue_id, issue_status) VALUES (:issue_id, :issue_status)";

pub const PULL_REQUEST_SQL: &'static str = "INSERT INTO pull_requests (pull_id, title, author, project_id, merged_by, connected_issues, pull_status) VALUES (:pull_id, :title, :author, :project_id, :merged_by, :connected_issues, :pull_status)";

/// Whether `p` binds the text `value` to the parameter `name`.
pub open spec fn binds_text(p: SqlParam, name: Seq<char>, value: Seq<char>) -> bool {
    &&& p.name@ == name
    &&& p.value matches SqlValue::Text(t) && t@ == value
}

/// Whether `p` binds the integer `value` to the parameter `name`.
pub open spec fn binds_int(p: SqlParam, name: Seq<char>, value: i64) -> bool {
    p.name@ == name && p.value == SqlValue::Int(value)
}

fn text_param(name: &str, value: &str) -> (p: SqlParam)
    ensures
        binds_text(p, name@, value@),
{
    SqlParam { name: String::from_str(name), value: SqlValue::Text(String::from_str(value)) }
}

/// The probe for a project row keyed by its repository URL.
pub fn project_exists_query(project_id: &str) -> (s: SqlStatement)
    ensures
        s.text@ == PROJECT_EXISTS_SQL@,
        s.params@.len() == 1,
        binds_text(s.params@[0], "project_id"@, project_id@),
{
    let mut params: Vec<SqlParam> = Vec::new();
    params.push(text_param("project_id", project_id));
    SqlStatement { text: String::from_str(PROJECT_EXISTS_SQL), params }
}

/// A new project row whose issue list holds the one issue `issue_id`.
pub fn add_project_statement(project_id: &str, project_logo: &str, issue_id: &str) -> (s: SqlStatement)
    ensures
        s.text@ == ADD_PROJECT_SQL@,
        s.params@.len() == 3,
        binds_text(s.params@[0], "project_id"@, project_id@),
        binds_text(s.params@[1], "project_logo"@, project_logo@),
        binds_text(s.params@[2], "issues_list"@, json_string_array(seq![issue_id@])),
{
    let mut issues: Vec<String> = Vec::new();
    issues.push(String::from_str(issue_id));
    assert(strings_view(issues@) =~= seq![issue_id@]);
    let list = json_array_text(&issues).unwrap();
    let mut params: Vec<SqlParam> = Vec::new();
    params.push(text_param("project_id", project_id));
    params.push(text_param("project_logo", project_logo));
    params.push(text_param("issues_list", list.as_str()));
    SqlStatement { text: String::from_str(ADD_PROJECT_SQL), params }
}

/// Appends `issue_id` to the issue list of an existing project row, leaving
/// the rest of the list as it is.
pub fn append_issue_statement(project_id: &str, issue_id: &str) -> (s: SqlStatement)
    ensures
        s.text@ == APPEND_ISSUE_SQL@,
        s.params@.len() == 2,
        binds_text(s.params@[0], "issue_id"@, issue_id@),
        binds_text(s.params@[1], "project_id"@, project_id@),
{
    let mut params: Vec<SqlParam> = Vec::new();
    params.push(text_param("issue_id", issue_id));
    params.push(text_param("project_id", project_id));
    SqlStatement { text: String::from_str(APPEND_ISSUE_SQL), params }
}

/// The row of an open issue.
pub fn add_issues_open(
    issue_id: &str,
    project_id: &str,
    issue_title: &str,
    issue_description: &str,
    repo_stars: i64,
    repo_avatar: &str,
) -> (s: SqlStatement)
    ensures
        s.text@ == OPEN_ISSUE_SQL@,
        s.params@.len() == 6,
        binds_text(s.params@[0], "issue_id"@, issue_id@),
        binds_text(s.params@[1], "project_id"@, project_id@),
        binds_text(s.params@[2], "issue_title"@, issue_title@),
        binds_text(s.params@[3], "issue_description"@, issue_description@),
        binds_int(s.params@[4], "repo_stars"@, repo_stars),
        binds_text(s.params@[5], "repo_avatar"@, repo_avatar@),
{
    let mut params: Vec<SqlParam> = Vec::new();
    params.push(text_param("issue_id", issue_id));
    params.push(text_param("project_id", project_id));
    params.push(text_param("issue_title", issue_title));
    params.push(text_param("issue_description", issue_description));
    params.push(SqlParam { name: String::from_str("repo_stars"), value: SqlValue::Int(repo_stars) });
    params.push(text_param("repo_avatar", repo_avatar));
    SqlStatement { text: String::from_str(OPEN_ISSUE_SQL), params }
}

/// The row of a closed issue; the assignees are stored as a JSON array.
pub fn add_issues_closed(issue_id: &str, issue_assignees: &Vec<String>, issue_linked_pr: &str) -> (s: SqlStatement)
    ensures
        s.text@ == CLOSED_ISSUE_SQL@,
        s.params@.len() == 3,
        binds_text(s.params@[0], "issue_id"@, issue_id@),
        binds_text(s.params@[1], "issue_assignees"@, json_string_array(strings_view(issue_assignees@))),
        binds_text(s.params@[2], "issue_linked_pr"@, issue_linked_pr@),
{
    let assignees = json_array_text(issue_assignees).unwrap();
    let mut params: Vec<SqlParam> = Vec::new();
    params.push(text_param("issue_id", issue_id));
    params.push(text_param("issue_assignees", assignees.as_str()));
    params.push(text_param("issue_linked_pr", issue_linked_pr));
    SqlStatement { text: String::from_str(CLOSED_ISSUE_SQL), params }
}

/// The comment row of an issue, holding its first comment; `None` where the
/// issue has no comment.
pub fn add_issues_comments(issue_id: &str, comments: &Vec<String>) -> (r: Option<SqlStatement>)
    ensures
        r is None <==> comments@.len() == 0,
        r matches Some(s) ==> {
            &&& s.text@ == COMMENT_SQL@
            &&& s.params@.len() == 2
            &&& binds_text(s.params@[0], "issue_id"@, issue_id@)
            &&& binds_text(s.params@[1], "issue_status"@, comments@[0]@)
        },
{
    if comments.len() == 0 {
        return None;
    }
    let mut params: Vec<SqlParam> = Vec::new();
    params.push(text_param("issue_id", issue_id));
    params.push(text_param("issue_status", comments[0].as_str()));
    Some(SqlStatement { text: String::from_str(COMMENT_SQL), params })
}

/// The row of a pull request; its connected issues are stored as a JSON array.
pub fn add_pull_request(
    pull_id: &str,
    title: &str,
    author: &str,
    project_id: &str,
    merged_by: &str,
    connected_issues: &Vec<String>,
    pull_status: &str,
) -> (s: SqlStatement)
    ensures
        s.text@ == PULL_REQUEST_SQL@,
        s.params@.len() == 7,
        binds_text(s.params@[0], "pull_id"@, pull_id@),
        binds_text(s.params@[1], "title"@, title@),
        binds_text(s.params@[2], "author"@, author@),
        binds_text(s.params@[3], "project_id"@, project_id@),
        binds_text(s.params@[4], "merged_by"@, merged_by@),
        binds_text(s.params@[5], "connected_issues"@, json_string_array(strings_view(connected_issues@))),
        binds_text(s.params@[6], "pull_status"@, pull_status@),
{
    let connected = json_array_text(connected_issues).unwrap();
    let mut params: Vec<SqlParam> = Vec::new();
    params.push(text_param("pull_id", pull_id));
    params.push(text_param("title", title));
    params.push(text_param("author", author));
    params.push(text_param("project_id", project_id));
    params.push(text_param("merged_by", merged_by));
    params.push(text_param("connected_issues", connected.as_str()));
    params.push(text_param("pull_status", pull_status));
    SqlStatement { text: String::from_str(PULL_REQUEST_SQL), params }
}


/// What to do next for the project of an issue.
#[derive(Clone, Copy, Debug, PartialEq, Eq, Structural)]
pub enum ProjectStep {
    /// The issue was already recorded in this run: write nothing.
    Skip,
    /// The project was not seen in this run: probe the store first.
    CheckExists,
    /// No row exists for the project: create it with this issue.
    CreateProject,
    /// The row exists: append this issue to it.
    AppendIssue,
}

/// The step for an issue of repository `repo`, given the repositories whose
/// rows are known to exist and the issues recorded in this run.
pub open spec fn first_step(
    known: Seq<Seq<char>>,
    recorded: Seq<Seq<char>>,
    repo: Seq<char>,
    issue: Seq<char>,
) -> ProjectStep {
    if recorded.contains(issue) {
        ProjectStep::Skip
    } else if known.contains(repo) {
        ProjectStep::AppendIssue
    } else {
        ProjectStep::CheckExists
    }
}

/// The step once the probe has answered.
pub open spec fn step_after_check(exists: bool) -> ProjectStep {
    if exists {
        ProjectStep::AppendIssue
    } else {
        ProjectStep::CreateProject
    }
}

/// Tracks, within one run, which project rows are known to exist and which
/// issues were recorded, so that each project is probed before it is created
/// and no issue is appended twice.
pub struct ProjectTracker {
    known: Vec<String>,
    recorded: Vec<String>,
}

impl View for ProjectTracker {
    type V = (Seq<Seq<char>>, Seq<Seq<char>>);

    closed spec fn view(&self) -> (Seq<Seq<char>>, Seq<Seq<char>>) {
        (strings_view(self.known@), strings_view(self.recorded@))
    }
}

/// Whether `v` holds the text `s`.
pub fn contains_text(v: &Vec<String>, s: &str) -> (r: bool)
    ensures
        r == strings_view(v@).contains(s@),
{
    let target = String::from_str(s);
    let mut i: usize = 0;
    while i < v.len()
        invariant
            target@ == s@,
            i <= v.len(),
            forall|j: int| 0 <= j < i ==> v@[j]@ != s@,
        decreases v.len() - i,
    {
        if v[i].eq(&target) {
            assert(strings_view(v@)[i as int] == s@);
            return true;
        }
        i = i + 1;
    }
    assert forall|j: int| 0 <= j < strings_view(v@).len() implies strings_view(v@)[j] != s@ by {
        assert(strings_view(v@)[j] == v@[j]@);
    }
    false
}

impl ProjectTracker {
    /// A tracker at the start of a run: nothing known, nothing recorded.
    pub fn new() -> (t: ProjectTracker)
        ensures
            t@ == (Seq::<Seq<char>>::empty(), Seq::<Seq<char>>::empty()),
    {
        let t = ProjectTracker { known: Vec::new(), recorded: Vec::new() };
        assert(t@.0 =~= Seq::<Seq<char>>::empty());
        assert(t@.1 =~= Seq::<Seq<char>>::empty());
        t
    }

    /// The first step for issue `issue` of repository `repo`.
    pub fn next_step(&self, repo: &str, issue: &str) -> (r: ProjectStep)
        ensures
            r == first_step(self@.0, self@.1, repo@, issue@),
    {
        if contains_text(&self.recorded, issue) {
            ProjectStep::Skip
        } else if contains_text(&self.known, repo) {
            ProjectStep::AppendIssue
        } else {
            ProjectStep::CheckExists
        }
    }

    /// The step once the probe for `repo` has answered `exists`. The project
    /// counts as known only once a write to its row has been recorded.
    pub fn after_check(&self, exists: bool) -> (r: ProjectStep)
        ensures
            r == step_after_check(exists),
    {
        if exists {
            ProjectStep::AppendIssue
        } else {
            ProjectStep::CreateProject
        }
    }

    /// Notes that `issue` was written to the row of `repo`, which therefore
    /// exists.
    pub fn record(&mut self, repo: &str, issue: &str)
        ensures
            final(self)@.0 == old(self)@.0.push(repo@),
            final(self)@.1 == old(self)@.1.push(issue@),
            first_step(final(self)@.0, final(self)@.1, repo@, issue@) == ProjectStep::Skip,
    {
        let ghost known = self.known@;
        let ghost recorded = self.recorded@;
        self.known.push(String::from_str(repo));
        self.recorded.push(String::from_str(issue));
        assert(strings_view(self.known@) =~= strings_view(known).push(repo@));
        assert(strings_view(self.recorded@) =~= strings_view(recorded).push(issue@));
        assert(strings_view(self.recorded@)[strings_view(recorded).len() as int] == issue@);
    }
}

/// A project row is created only right after a probe that found it absent:
/// the first step for an issue never creates one, it probes whenever the
/// project is new to the run and the issue not yet recorded, and a probe that
/// finds the row leads to an append, not a creation.
pub proof fn lemma_create_only_after_absent_check(
    known: Seq<Seq<char>>,
    recorded: Seq<Seq<char>>,
    repo: Seq<char>,
    issue: Seq<char>,
)
    ensures
        first_step(known, recorded, repo, issue) != ProjectStep::CreateProject,
        !recorded.contains(issue) && !known.contains(repo) ==> first_step(
            known,
            recorded,
            repo,
            issue,
        ) == ProjectStep::CheckExists,
        step_after_check(true) == ProjectStep::AppendIssue,
        step_after_check(false) == ProjectStep::CreateProject,
{
}


/// The row of an open-issue record, keyed by its URL under the project of its
/// repository.
pub fn open_issue_row(issue: &OuterIssue) -> (s: SqlStatement)
    ensures
        s.text@ == OPEN_ISSUE_SQL@,
        s.params@.len() == 6,
        binds_text(s.params@[0], "issue_id"@, issue.url@),
        binds_text(s.params@[1], "project_id"@, issue.repository@),
        binds_text(s.params@[2], "issue_title"@, issue.title@),
        binds_text(s.params@[3], "issue_description"@, issue.body@),
        binds_int(s.params@[4], "repo_stars"@, issue.repository_stars),
        binds_text(s.params@[5], "repo_avatar"@, issue.repository_avatar@),
{
    add_issues_open(
        issue.url.as_str(),
        issue.repository.as_str(),
        issue.title.as_str(),
        issue.body.as_str(),
        issue.repository_stars,
        issue.repository_avatar.as_str(),
    )
}

/// Who is credited with a closed issue: the author of the pull request that
/// closed it, where there is one.
pub open spec fn closing_assignees(close_author: Seq<char>) -> Seq<Seq<char>> {
    if close_author.len() == 0 {
        Seq::empty()
    } else {
        seq![close_author]
    }
}

/// The row of a closed-issue record: its URL, the author of the closing pull
/// request as assignee, and that pull request's URL.
pub fn closed_issue_row(issue: &CloseOuterIssue) -> (s: SqlStatement)
    ensures
        s.text@ == CLOSED_ISSUE_SQL@,
        s.params@.len() == 3,
        binds_text(s.params@[0], "issue_id"@, issue.url@),
        binds_text(s.params@[1], "issue_assignees"@, json_string_array(closing_assignees(issue.close_author@))),
        binds_text(s.params@[2], "issue_linked_pr"@, issue.close_pull_request@),
{
    let mut assignees: Vec<String> = Vec::new();
    if issue.close_author.unicode_len() > 0 {
        assignees.push(issue.close_author.clone());
    }
    assert(strings_view(assignees@) =~= closing_assignees(issue.close_author@));
    add_issues_closed(issue.url.as_str(), &assignees, issue.close_pull_request.as_str())
}

pub const MERGED: &'static str = "merged";

pub const NOT_MERGED: &'static str = "open";

/// Who merged a pull request, empty until it is merged.
pub open spec fn merger_of(pull: SimplePull) -> Seq<char> {
    match pull.merged_by {
        Some(m) => m@,
        None => Seq::empty(),
    }
}

/// `merged` once a pull request is merged, else `open`.
pub open spec fn pull_status_of(pull: SimplePull) -> Seq<char> {
    match pull.merged_by {
        Some(_) => MERGED@,
        None => NOT_MERGED@,
    }
}

/// The row of a pull request record, under the project `project_id` of its
/// repository.
pub fn pull_request_row(pull: &SimplePull, project_id: &str) -> (s: SqlStatement)
    ensures
        s.text@ == PULL_REQUEST_SQL@,
        s.params@.len() == 7,
        binds_text(s.params@[0], "pull_id"@, pull.url@),
        binds_text(s.params@[1], "title"@, pull.title@),
        binds_text(s.params@[2], "author"@, pull.author@),
        binds_text(s.params@[3], "project_id"@, project_id@),
        binds_text(s.params@[4], "merged_by"@, merger_of(*pull)),
        binds_text(s.params@[5], "connected_issues"@, json_string_array(strings_view(pull.connected_issues@))),
        binds_text(s.params@[6], "pull_status"@, pull_status_of(*pull)),
{
    let (merged_by, status) = match &pull.merged_by {
        Some(m) => (m.clone(), MERGED),
        None => (String::new(), NOT_MERGED),
    };
    add_pull_request(
        pull.url.as_str(),
        pull.title.as_str(),
        pull.author.as_str(),
        project_id,
        merged_by.as_str(),
        &pull.connected_issues,
        status,
    )
}

} // verus!
