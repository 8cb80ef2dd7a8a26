//! The flat records that search results become.
use vstd::prelude::*;

verus! {

/// An open issue.
#[derive(Clone, Debug, PartialEq, Eq)]
pub struct OuterIssue {
    pub title: String,
    pub url: String,
    pub author: String,
    pub body: String,
    pub repository: String,
    pub repository_stars: i64,
    pub repository_avatar: String,
    pub issue_labels: Vec<String>,
    /// Each comment as `"<author>: <body>"`.
    pub comments: Vec<String>,
}

/// A closed issue, with what closed it.
#[derive(Clone, Debug, PartialEq, Eq)]
pub struct CloseOuterIssue {
    pub title: String,
    pub url: String,
    pub author: String,
    pub body: String,
    pub repository: String,
    pub repository_stars: i64,
    pub issue_labels: Vec<String>,
    /// Each comment as `"<author>: <body>"`.
    pub comments: Vec<String>,
    pub close_reason: String,
    pub close_pull_request: String,
    pub close_author: String,
}

/// A pull request found by a search over all repositories.
#[derive(Clone, Debug, PartialEq, Eq)]
pub struct OuterPull {
    pub title: String,
    pub url: String,
    pub author: String,
    /// URL of the repository where the pull request was opened.
    pub repository: String,
    pub labels: Vec<String>,
    /// Logins of those who approved it.
    pub reviews: Vec<String>,
    /// Login of who merged it, empty until it is merged.
    pub merged_by: String,
}

/// A pull request with the issues it is connected to.
#[derive(Clone, Debug, PartialEq, Eq)]
pub struct SimplePull {
    pub title: String,
    pub url: String,
    pub author: String,
    pub connected_issues: Vec<String>,
    pub labels: Vec<String>,
    /// Logins of those who approved it.
    pub reviews: Vec<String>,
    /// Login of who merged it; `None` until it is merged.
    pub merged_by: Option<String>,
}

} // verus!
