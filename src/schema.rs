//! The shapes of a search response as the remote API sends them: every field
//! may be absent, and lists come as edges that may lack their node.
use vstd::prelude::*;

verus! {

#[derive(Clone, Debug, PartialEq, Eq)]
pub struct RawActor {
    pub login: Option<String>,
}

#[derive(Clone, Debug, PartialEq, Eq)]
pub struct RawEdge<T> {
    pub node: Option<T>,
}

#[derive(Clone, Debug, PartialEq, Eq)]
pub struct RawConnection<T> {
    pub edges: Option<Vec<RawEdge<T>>>,
}

#[derive(Clone, Debug, PartialEq, Eq)]
pub struct RawLabel {
    pub name: Option<String>,
}

#[derive(Clone, Debug, PartialEq, Eq)]
pub struct RawComment {
    pub author: Option<RawActor>,
    pub body: Option<String>,
}

#[derive(Clone, Debug, PartialEq, Eq)]
pub struct RawStargazers {
    pub total_count: Option<i64>,
}

#[derive(Clone, Debug, PartialEq, Eq)]
pub struct RawOwner {
    pub avatar_url: Option<String>,
}

#[derive(Clone, Debug, PartialEq, Eq)]
pub struct RawRepository {
    pub url: Option<String>,
    pub stargazers: Option<RawStargazers>,
    pub owner: Option<RawOwner>,
}

/// The pull request that closed an issue.
#[derive(Clone, Debug, PartialEq, Eq)]
pub struct RawCloser {
    pub title: Option<String>,
    pub url: Option<String>,
    pub author: Option<RawActor>,
}

/// A close event of an issue's timeline.
#[derive(Clone, Debug, PartialEq, Eq)]
pub struct RawClosedEvent {
    pub state_reason: Option<String>,
    pub closer: Option<RawCloser>,
}

#[derive(Clone, Debug, PartialEq, Eq)]
pub struct RawIssue {
    pub title: Option<String>,
    pub url: Option<String>,
    pub body: Option<String>,
    pub author: Option<RawActor>,
    pub repository: Option<RawRepository>,
    pub labels: Option<RawConnection<RawLabel>>,
    pub comments: Option<RawConnection<RawComment>>,
    pub timeline_items: Option<RawConnection<RawClosedEvent>>,
}

#[derive(Clone, Debug, PartialEq, Eq)]
pub struct RawReview {
    pub author: Option<RawActor>,
    pub state: Option<String>,
}

/// The issue that a connect event of a pull request's timeline names.
#[derive(Clone, Debug, PartialEq, Eq)]
pub struct RawSubject {
    pub url: Option<String>,
}

#[derive(Clone, Debug, PartialEq, Eq)]
pub struct RawConnectedEvent {
    pub subject: Option<RawSubject>,
}

#[derive(Clone, Debug, PartialEq, Eq)]
pub struct RawPull {
    pub title: Option<String>,
    pub url: Option<String>,
    pub author: Option<RawActor>,
    pub repository: Option<RawRepository>,
    pub labels: Option<RawConnection<RawLabel>>,
    pub reviews: Option<RawConnection<RawReview>>,
    pub merged_by: Option<RawActor>,
    pub timeline_items: Option<RawConnection<RawConnectedEvent>>,
}

#[derive(Clone, Debug, PartialEq, Eq)]
pub struct RawPageInfo {
    pub end_cursor: Option<String>,
    pub has_next_page: bool,
}

/// One page of search results.
#[derive(Clone, Debug, PartialEq, Eq)]
pub struct RawSearch<T> {
    pub edges: Option<Vec<RawEdge<T>>>,
    pub page_info: RawPageInfo,
}

#[derive(Clone, Debug, PartialEq, Eq)]
pub struct RawData<T> {
    pub search: Option<RawSearch<T>>,
}

/// A decoded response to one search request.
#[derive(Clone, Debug, PartialEq, Eq)]
pub struct RawResponse<T> {
    pub data: Option<RawData<T>>,
}

/// The texts of a list of strings.
pub open spec fn strings_view(v: Seq<String>) -> Seq<Seq<char>> {
    v.map_values(|s: String| s@)
}

/// The text of an optional string, empty where it is absent.
pub open spec fn text_of(o: Option<String>) -> Seq<char> {
    match o {
        Some(s) => s@,
        None => Seq::empty(),
    }
}

/// The login of an optional actor, empty where either is absent.
pub open spec fn login_of(a: Option<RawActor>) -> Seq<char> {
    match a {
        Some(x) => text_of(x.login),
        None => Seq::empty(),
    }
}

/// The edges of an optional connection, none where it is absent.
pub open spec fn edges_of<T>(c: Option<RawConnection<T>>) -> Seq<RawEdge<T>> {
    match c {
        Some(x) => match x.edges {
            Some(v) => v@,
            None => Seq::empty(),
        },
        None => Seq::empty(),
    }
}

/// The nodes that a list of edges holds, in order, skipping edges without one.
pub open spec fn nodes_of<T>(edges: Seq<RawEdge<T>>) -> Seq<T>
    decreases edges.len(),
{
    if edges.len() == 0 {
        Seq::empty()
    } else {
        let rest = nodes_of(edges.drop_last());
        match edges.last().node {
            Some(n) => rest.push(n),
            None => rest,
        }
    }
}

/// One more edge adds its node, if it has one, to the nodes of the edges before.
pub proof fn lemma_nodes_of_step<T>(edges: Seq<RawEdge<T>>, i: int)
    requires
        0 <= i < edges.len(),
    ensures
        nodes_of(edges.take(i + 1)) == match edges[i].node {
            Some(n) => nodes_of(edges.take(i)).push(n),
            None => nodes_of(edges.take(i)),
        },
{
    assert(edges.take(i + 1).drop_last() =~= edges.take(i));
}

} // verus!
