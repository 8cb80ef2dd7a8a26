//! Flattening of raw search results into records: every absent field becomes
//! its default (empty text, empty list, zero), and nothing here can fail.
use crate::records::{CloseOuterIssue, OuterIssue, OuterPull, SimplePull};
use crate::schema::{
    edges_of, lemma_nodes_of_step, login_of, nodes_of, strings_view, text_of, RawActor, RawClosedEvent, RawComment,
    RawConnectedEvent, RawConnection, RawEdge, RawIssue, RawLabel, RawPull, RawRepository, RawReview,
};
use vstd::prelude::*;

verus! {

pub open spec fn label_names(c: Option<RawConnection<RawLabel>>) -> Seq<Seq<char>> {
    nodes_of(edges_of(c)).map_values(|l: RawLabel| text_of(l.name))
}

pub open spec fn comment_line(c: RawComment) -> Seq<char> {
    login_of(c.author) + ": "@ + text_of(c.body)
}

pub open spec fn comment_lines(c: Option<RawConnection<RawComment>>) -> Seq<Seq<char>> {
    nodes_of(edges_of(c)).map_values(|x: RawComment| comment_line(x))
}

pub open spec fn repo_url(r: Option<RawRepository>) -> Seq<char> {
    match r {
        Some(x) => text_of(x.url),
        None => Seq::empty(),
    }
}

pub open spec fn repo_stars(r: Option<RawRepository>) -> i64 {
    match r {
        Some(x) => match x.stargazers {
            Some(g) => match g.total_count {
                Some(n) => n,
                None => 0,
            },
            None => 0,
        },
        None => 0,
    }
}

pub open spec fn repo_avatar(r: Option<RawRepository>) -> Seq<char> {
    match r {
        Some(x) => match x.owner {
            Some(o) => text_of(o.avatar_url),
            None => Seq::empty(),
        },
        None => Seq::empty(),
    }
}

/// Whether `rec` is the open-issue record of `raw`.
pub open spec fn is_open_issue_of(rec: OuterIssue, raw: RawIssue) -> bool {
    &&& rec.title@ == text_of(raw.title)
    &&& rec.url@ == text_of(raw.url)
    &&& rec.author@ == login_of(raw.author)
    &&& rec.body@ == text_of(raw.body)
    &&& rec.repository@ == repo_url(raw.repository)
    &&& rec.repository_stars == repo_stars(raw.repository)
    &&& rec.repository_avatar@ == repo_avatar(raw.repository)
    &&& strings_view(rec.issue_labels@) == label_names(raw.labels)
    &&& strings_view(rec.comments@) == comment_lines(raw.comments)
}

/// The text of an optional string; empty where it is absent.
pub fn text_or_empty(o: &Option<String>) -> (r: String)
    ensures
        r@ == text_of(*o),
{
    match o {
        Some(s) => s.clone(),
        None => String::new(),
    }
}

/// The login of an optional actor; empty where it is absent.
pub fn login_or_empty(a: &Option<RawActor>) -> (r: String)
    ensures
        r@ == login_of(*a),
{
    match a {
        Some(x) => text_or_empty(&x.login),
        None => String::new(),
    }
}

/// The names of the labels of a connection, in order; an absent name is empty.
pub fn label_list(c: &Option<RawConnection<RawLabel>>) -> (r: Vec<String>)
    ensures
        strings_view(r@) == label_names(*c),
{
    let mut out: Vec<String> = Vec::new();
    if let Some(conn) = c {
        if let Some(edges) = &conn.edges {
            let mut i: usize = 0;
            while i < edges.len()
                invariant
                    edges_of(*c) == edges@,
                    i <= edges.len(),
                    strings_view(out@) == nodes_of(edges@.take(i as int)).map_values(
                        |l: RawLabel| text_of(l.name),
                    ),
                decreases edges.len() - i,
            {
                proof {
                    lemma_nodes_of_step(edges@, i as int);
                }
                if let Some(label) = &edges[i].node {
                    let name = text_or_empty(&label.name);
                    let ghost before = out@;
                    out.push(name);
                    assert(strings_view(out@) =~= strings_view(before).push(name@));
                    assert(strings_view(out@) =~= nodes_of(edges@.take(i + 1)).map_values(
                        |l: RawLabel| text_of(l.name),
                    ));
                } else {
                    assert(strings_view(out@) =~= nodes_of(edges@.take(i + 1)).map_values(
                        |l: RawLabel| text_of(l.name),
                    ));
                }
                i = i + 1;
            }
            assert(edges@.take(edges.len() as int) =~= edges@);
            return out;
        }
    }
    assert(strings_view(out@) =~= label_names(*c));
    out
}

/// The comment `"<author>: <body>"`; absent parts are empty.
pub fn comment_text(c: &RawComment) -> (r: String)
    ensures
        r@ == comment_line(*c),
{
    let mut line = login_or_empty(&c.author);
    line.append(": ");
    let body = text_or_empty(&c.body);
    line.append(body.as_str());
    line
}

/// The comments of a connection, in order, each as `"<author>: <body>"`.
pub fn comment_list(c: &Option<RawConnection<RawComment>>) -> (r: Vec<String>)
    ensures
        strings_view(r@) == comment_lines(*c),
{
    let mut out: Vec<String> = Vec::new();
    if let Some(conn) = c {
        if let Some(edges) = &conn.edges {
            let mut i: usize = 0;
            while i < edges.len()
                invariant
                    edges_of(*c) == edges@,
                    i <= edges.len(),
                    strings_view(out@) == nodes_of(edges@.take(i as int)).map_values(
                        |x: RawComment| comment_line(x),
                    ),
                decreases edges.len() - i,
            {
                proof {
                    lemma_nodes_of_step(edges@, i as int);
                }
                if let Some(comment) = &edges[i].node {
                    let line = comment_text(comment);
                    let ghost before = out@;
                    out.push(line);
                    assert(strings_view(out@) =~= strings_view(before).push(line@));
                    assert(strings_view(out@) =~= nodes_of(edges@.take(i + 1)).map_values(
                        |x: RawComment| comment_line(x),
                    ));
                } else {
                    assert(strings_view(out@) =~= nodes_of(edges@.take(i + 1)).map_values(
                        |x: RawComment| comment_line(x),
                    ));
                }
                i = i + 1;
            }
            assert(edges@.take(edges.len() as int) =~= edges@);
            return out;
        }
    }
    assert(strings_view(out@) =~= comment_lines(*c));
    out
}

pub fn repository_url(r: &Option<RawRepository>) -> (s: String)
    ensures
        s@ == repo_url(*r),
{
    match r {
        Some(x) => text_or_empty(&x.url),
        None => String::new(),
    }
}

pub fn repository_stars(r: &Option<RawRepository>) -> (n: i64)
    ensures
        n == repo_stars(*r),
{
    match r {
        Some(x) => match &x.stargazers {
            Some(g) => match g.total_count {
                Some(n) => n,
                None => 0,
            },
            None => 0,
        },
        None => 0,
    }
}

pub fn repository_avatar(r: &Option<RawRepository>) -> (s: String)
    ensures
        s@ == repo_avatar(*r),
{
    match r {
        Some(x) => match &x.owner {
            Some(o) => text_or_empty(&o.avatar_url),
            None => String::new(),
        },
        None => String::new(),
    }
}

/// The record of an open issue.
pub fn normalize_open_issue(raw: &RawIssue) -> (r: OuterIssue)
    ensures
        is_open_issue_of(r, *raw),
{
    OuterIssue {
        title: text_or_empty(&raw.title),
        url: text_or_empty(&raw.url),
        author: login_or_empty(&raw.author),
        body: text_or_empty(&raw.body),
        repository: repository_url(&raw.repository),
        repository_stars: repository_stars(&raw.repository),
        repository_avatar: repository_avatar(&raw.repository),
        issue_labels: label_list(&raw.labels),
        comments: comment_list(&raw.comments),
    }
}


/// Whether a close event names the pull request that closed the issue (a
/// closer without a URL is no pull request).
pub open spec fn closed_by_pull(ev: RawClosedEvent) -> bool {
    ev.closer matches Some(c) && c.url is Some
}

/// The first close event, among the edges that hold one, that names a closing
/// pull request.
pub open spec fn first_closing(edges: Seq<RawEdge<RawClosedEvent>>) -> Option<RawClosedEvent>
    decreases edges.len(),
{
    if edges.len() == 0 {
        None
    } else {
        match edges[0].node {
            Some(ev) => if closed_by_pull(ev) {
                Some(ev)
            } else {
                first_closing(edges.drop_first())
            },
            None => first_closing(edges.drop_first()),
        }
    }
}

/// Reason, closing pull request URL and its author, of the first close event
/// with a closing pull request; all three empty where there is none.
pub open spec fn close_fields(c: Option<RawConnection<RawClosedEvent>>) -> (
    Seq<char>,
    Seq<char>,
    Seq<char>,
) {
    match first_closing(edges_of(c)) {
        Some(ev) => (
            text_of(ev.state_reason),
            text_of(ev.closer->0.url),
            login_of(ev.closer->0.author),
        ),
        None => (Seq::empty(), Seq::empty(), Seq::empty()),
    }
}

/// Whether `rec` is the closed-issue record of `raw`.
pub open spec fn is_closed_issue_of(rec: CloseOuterIssue, raw: RawIssue) -> bool {
    &&& rec.title@ == text_of(raw.title)
    &&& rec.url@ == text_of(raw.url)
    &&& rec.author@ == login_of(raw.author)
    &&& rec.body@ == text_of(raw.body)
    &&& rec.repository@ == repo_url(raw.repository)
    &&& rec.repository_stars == repo_stars(raw.repository)
    &&& strings_view(rec.issue_labels@) == label_names(raw.labels)
    &&& strings_view(rec.comments@) == comment_lines(raw.comments)
    &&& (rec.close_reason@, rec.close_pull_request@, rec.close_author@) == close_fields(
        raw.timeline_items,
    )
}

/// Reason, closing pull request URL and author of the first close event that
/// has a closing pull request; empty texts where there is none.
pub fn closing_details(c: &Option<RawConnection<RawClosedEvent>>) -> (r: (String, String, String))
    ensures
        (r.0@, r.1@, r.2@) == close_fields(*c),
{
    if let Some(conn) = c {
        if let Some(edges) = &conn.edges {
            let mut i: usize = 0;
            assert(edges@.skip(0) =~= edges@);
            while i < edges.len()
                invariant
                    edges_of(*c) == edges@,
                    i <= edges.len(),
                    first_closing(edges@) == first_closing(edges@.skip(i as int)),
                decreases edges.len() - i,
            {
                assert(edges@.skip(i as int)[0] == edges@[i as int]);
                assert(edges@.skip(i as int).drop_first() =~= edges@.skip(i + 1));
                if let Some(ev) = &edges[i].node {
                    if let Some(closer) = &ev.closer {
                        if let Some(url) = &closer.url {
                            return (
                                text_or_empty(&ev.state_reason),
                                url.clone(),
                                login_or_empty(&closer.author),
                            );
                        }
                    }
                }
                i = i + 1;
            }
            assert(edges@.skip(i as int).len() == 0);
        }
    }
    (String::new(), String::new(), String::new())
}

/// The record of a closed issue.
pub fn normalize_closed_issue(raw: &RawIssue) -> (r: CloseOuterIssue)
    ensures
        is_closed_issue_of(r, *raw),
{
    let (close_reason, close_pull_request, close_author) = closing_details(&raw.timeline_items);
    CloseOuterIssue {
        title: text_or_empty(&raw.title),
        url: text_or_empty(&raw.url),
        author: login_or_empty(&raw.author),
        body: text_or_empty(&raw.body),
        repository: repository_url(&raw.repository),
        repository_stars: repository_stars(&raw.repository),
        issue_labels: label_list(&raw.labels),
        comments: comment_list(&raw.comments),
        close_reason,
        close_pull_request,
        close_author,
    }
}

/// The review state that counts as an approval.
pub const APPROVED: &'static str = "APPROVED";

/// Logins of the authors of the approving reviews, in order.
pub open spec fn approved_logins(edges: Seq<RawEdge<RawReview>>) -> Seq<Seq<char>>
    decreases edges.len(),
{
    if edges.len() == 0 {
        Seq::empty()
    } else {
        let rest = approved_logins(edges.drop_last());
        match edges.last().node {
            Some(r) => if text_of(r.state) == APPROVED@ {
                rest.push(login_of(r.author))
            } else {
                rest
            },
            None => rest,
        }
    }
}

/// URLs of the issues that connect events name, in order.
pub open spec fn connected_urls(edges: Seq<RawEdge<RawConnectedEvent>>) -> Seq<Seq<char>>
    decreases edges.len(),
{
    if edges.len() == 0 {
        Seq::empty()
    } else {
        let rest = connected_urls(edges.drop_last());
        match edges.last().node {
            Some(ev) => match ev.subject {
                Some(subject) => rest.push(text_of(subject.url)),
                None => rest,
            },
            None => rest,
        }
    }
}

proof fn lemma_take_step<T>(s: Seq<T>, i: int)
    requires
        0 <= i < s.len(),
    ensures
        s.take(i + 1).drop_last() == s.take(i),
        s.take(i + 1).last() == s[i],
        s.take(i + 1).len() > 0,
{
    assert(s.take(i + 1).drop_last() =~= s.take(i));
}

/// Logins of the authors whose approval state is `APPROVED`, in order.
pub fn approving_reviewers(c: &Option<RawConnection<RawReview>>) -> (r: Vec<String>)
    ensures
        strings_view(r@) == approved_logins(edges_of(*c)),
{
    let mut out: Vec<String> = Vec::new();
    let approved = String::from_str(APPROVED);
    if let Some(conn) = c {
        if let Some(edges) = &conn.edges {
            let mut i: usize = 0;
            while i < edges.len()
                invariant
                    edges_of(*c) == edges@,
                    approved@ == APPROVED@,
                    i <= edges.len(),
                    strings_view(out@) == approved_logins(edges@.take(i as int)),
                decreases edges.len() - i,
            {
                proof {
                    lemma_take_step(edges@, i as int);
                }
                if let Some(review) = &edges[i].node {
                    let state = text_or_empty(&review.state);
                    if state.eq(&approved) {
                        let login = login_or_empty(&review.author);
                        let ghost before = out@;
                        out.push(login);
                        assert(strings_view(out@) =~= strings_view(before).push(login@));
                    }
                }
                i = i + 1;
            }
            assert(edges@.take(edges.len() as int) =~= edges@);
            return out;
        }
    }
    assert(strings_view(out@) =~= approved_logins(edges_of(*c)));
    out
}

/// URLs of the issues that the connect events of a timeline name, in order.
pub fn connected_issue_urls(c: &Option<RawConnection<RawConnectedEvent>>) -> (r: Vec<String>)
    ensures
        strings_view(r@) == connected_urls(edges_of(*c)),
{
    let mut out: Vec<String> = Vec::new();
    if let Some(conn) = c {
        if let Some(edges) = &conn.edges {
            let mut i: usize = 0;
            while i < edges.len()
                invariant
                    edges_of(*c) == edges@,
                    i <= edges.len(),
                    strings_view(out@) == connected_urls(edges@.take(i as int)),
                decreases edges.len() - i,
            {
                proof {
                    lemma_take_step(edges@, i as int);
                }
                if let Some(ev) = &edges[i].node {
                    if let Some(subject) = &ev.subject {
                        let url = text_or_empty(&subject.url);
                        let ghost before = out@;
                        out.push(url);
                        assert(strings_view(out@) =~= strings_view(before).push(url@));
                    }
                }
                i = i + 1;
            }
            assert(edges@.take(edges.len() as int) =~= edges@);
            return out;
        }
    }
    assert(strings_view(out@) =~= connected_urls(edges_of(*c)));
    out
}

/// Whether `rec` is the pull-request record of `raw`.
pub open spec fn is_pull_of(rec: OuterPull, raw: RawPull) -> bool {
    &&& rec.title@ == text_of(raw.title)
    &&& rec.url@ == text_of(raw.url)
    &&& rec.author@ == login_of(raw.author)
    &&& rec.repository@ == repo_url(raw.repository)
    &&& strings_view(rec.labels@) == label_names(raw.labels)
    &&& strings_view(rec.reviews@) == approved_logins(edges_of(raw.reviews))
    &&& rec.merged_by@ == login_of(raw.merged_by)
}

/// The record of a pull request.
pub fn normalize_pull(raw: &RawPull) -> (r: OuterPull)
    ensures
        is_pull_of(r, *raw),
{
    OuterPull {
        title: text_or_empty(&raw.title),
        url: text_or_empty(&raw.url),
        author: login_or_empty(&raw.author),
        repository: repository_url(&raw.repository),
        labels: label_list(&raw.labels),
        reviews: approving_reviewers(&raw.reviews),
        merged_by: login_or_empty(&raw.merged_by),
    }
}

/// Whether `rec` is the connected-pull-request record of `raw`.
pub open spec fn is_simple_pull_of(rec: SimplePull, raw: RawPull) -> bool {
    &&& rec.title@ == text_of(raw.title)
    &&& rec.url@ == text_of(raw.url)
    &&& rec.author@ == login_of(raw.author)
    &&& strings_view(rec.connected_issues@) == connected_urls(edges_of(raw.timeline_items))
    &&& strings_view(rec.labels@) == label_names(raw.labels)
    &&& strings_view(rec.reviews@) == approved_logins(edges_of(raw.reviews))
    &&& match raw.merged_by {
        Some(a) => rec.merged_by matches Some(m) && m@ == text_of(a.login),
        None => rec.merged_by is None,
    }
}

/// The record of a pull request with the issues it is connected to.
pub fn normalize_simple_pull(raw: &RawPull) -> (r: SimplePull)
    ensures
        is_simple_pull_of(r, *raw),
{
    let merged_by = match &raw.merged_by {
        Some(a) => Some(text_or_empty(&a.login)),
        None => None,
    };
    SimplePull {
        title: text_or_empty(&raw.title),
        url: text_or_empty(&raw.url),
        author: login_or_empty(&raw.author),
        connected_issues: connected_issue_urls(&raw.timeline_items),
        labels: label_list(&raw.labels),
        reviews: approving_reviewers(&raw.reviews),
        merged_by,
    }
}


/// An issue node with every optional field absent.
pub open spec fn bare_issue() -> RawIssue {
    RawIssue {
        title: None,
        url: None,
        body: None,
        author: None,
        repository: None,
        labels: None,
        comments: None,
        timeline_items: None,
    }
}

/// A pull request node with every optional field absent.
pub open spec fn bare_pull() -> RawPull {
    RawPull {
        title: None,
        url: None,
        author: None,
        repository: None,
        labels: None,
        reviews: None,
        merged_by: None,
        timeline_items: None,
    }
}

/// A node missing every optional field yields records whose texts and lists
/// are all empty and whose star count is zero.
pub proof fn lemma_bare_nodes_give_empty_records(
    open: OuterIssue,
    closed: CloseOuterIssue,
    pull: OuterPull,
    simple: SimplePull,
)
    requires
        is_open_issue_of(open, bare_issue()),
        is_closed_issue_of(closed, bare_issue()),
        is_pull_of(pull, bare_pull()),
        is_simple_pull_of(simple, bare_pull()),
    ensures
        open.title@.len() == 0 && open.url@.len() == 0 && open.author@.len() == 0
            && open.body@.len() == 0 && open.repository@.len() == 0
            && open.repository_avatar@.len() == 0 && open.repository_stars == 0
            && open.issue_labels@.len() == 0 && open.comments@.len() == 0,
        closed.title@.len() == 0 && closed.url@.len() == 0 && closed.author@.len() == 0
            && closed.body@.len() == 0 && closed.repository@.len() == 0
            && closed.repository_stars == 0 && closed.issue_labels@.len() == 0
            && closed.comments@.len() == 0 && closed.close_reason@.len() == 0
            && closed.close_pull_request@.len() == 0 && closed.close_author@.len() == 0,
        pull.title@.len() == 0 && pull.url@.len() == 0 && pull.author@.len() == 0
            && pull.repository@.len() == 0 && pull.labels@.len() == 0 && pull.reviews@.len() == 0
            && pull.merged_by@.len() == 0,
        simple.title@.len() == 0 && simple.url@.len() == 0 && simple.author@.len() == 0
            && simple.connected_issues@.len() == 0 && simple.labels@.len() == 0
            && simple.reviews@.len() == 0 && simple.merged_by is None,
{
    let no_edges = Seq::<RawEdge<RawLabel>>::empty();
    assert(nodes_of(no_edges).len() == 0);
    assert(nodes_of(Seq::<RawEdge<RawComment>>::empty()).len() == 0);
    assert(first_closing(Seq::<RawEdge<RawClosedEvent>>::empty()) is None);
    assert(approved_logins(Seq::<RawEdge<RawReview>>::empty()).len() == 0);
    assert(connected_urls(Seq::<RawEdge<RawConnectedEvent>>::empty()).len() == 0);
    assert(strings_view(open.issue_labels@).len() == open.issue_labels@.len());
    assert(strings_view(open.comments@).len() == open.comments@.len());
    assert(strings_view(closed.issue_labels@).len() == closed.issue_labels@.len());
    assert(strings_view(closed.comments@).len() == closed.comments@.len());
    assert(strings_view(pull.labels@).len() == pull.labels@.len());
    assert(strings_view(pull.reviews@).len() == pull.reviews@.len());
    assert(strings_view(simple.labels@).len() == simple.labels@.len());
    assert(strings_view(simple.reviews@).len() == simple.reviews@.len());
    assert(strings_view(simple.connected_issues@).len() == simple.connected_issues@.len());
}

} // verus!
