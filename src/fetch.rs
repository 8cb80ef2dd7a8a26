//! Paging through search results: the request document of each page, the
//! pager that decides whether another page is due, and the records of a page.
use crate::normalize::{
    is_closed_issue_of, is_open_issue_of, is_pull_of, is_simple_pull_of, normalize_closed_issue,
    normalize_open_issue, normalize_pull, normalize_simple_pull,
};
use crate::planner::EntityKind;
use crate::records::{CloseOuterIssue, OuterIssue, OuterPull, SimplePull};
use crate::schema::{
    lemma_nodes_of_step, nodes_of, RawEdge, RawIssue, RawPageInfo, RawPull, RawResponse, RawSearch,
};
use vstd::prelude::*;

verus! {

/// Most pages fetched for one query.
pub const MAX_PAGES: u32 = 10;

/// Why the pages of a query could not all be had.
#[derive(Clone, Copy, Debug, PartialEq, Eq, Structural)]
pub enum FetchError {
    /// The request failed or the status was not a success.
    Transport,
    /// The response did not have the expected shape.
    Decode,
}

/// `s` with each double quote preceded by a backslash.
pub open spec fn escape_quotes(s: Seq<char>) -> Seq<char>
    decreases s.len(),
{
    if s.len() == 0 {
        Seq::empty()
    } else {
        escape_quotes(s.drop_last()) + if s.last() == '"' {
            seq!['\\', '"']
        } else {
            seq![s.last()]
        }
    }
}

/// Escapes the double quotes of a query so that it can stand in a quoted
/// string of the request document.
pub fn escape_query(q: &str) -> (r: String)
    ensures
        r@ == escape_quotes(q@),
{
    let n = q.unicode_len();
    let mut out = String::new();
    let mut i: usize = 0;
    while i < n
        invariant
            n == q@.len(),
            i <= n,
            out@ == escape_quotes(q@.take(i as int)),
        decreases n - i,
    {
        assert(q@.take(i + 1).drop_last() =~= q@.take(i as int));
        assert(q@.take(i + 1).last() == q@[i as int]);
        if q.get_char(i) == '"' {
            out.append("\\\"");
            proof {
                reveal_strlit("\\\"");
            }
        } else {
            let one = q.substring_char(i, i + 1);
            out.append(one);
            assert(one@ =~= seq![q@[i as int]]);
        }
        i = i + 1;
    }
    assert(q@.take(n as int) =~= q@);
    out
}

/// The node fields that a search for each kind asks for.
pub open spec fn selection(kind: EntityKind) -> Seq<char> {
    match kind {
        EntityKind::OpenIssue => OPEN_ISSUE_FIELDS@,
        EntityKind::ClosedIssue => CLOSED_ISSUE_FIELDS@,
        EntityKind::PullRequest => PULL_FIELDS@,
    }
}

pub const OPEN_ISSUE_FIELDS: &'static str = "... on Issue { title url body author { login } repository { url stargazers { totalCount } owner { avatarUrl } } labels(first: 10) { edges { node { name } } } comments(first: 10) { edges { node { author { login } body } } } }";

pub const CLOSED_ISSUE_FIELDS: &'static str = "... on Issue { title url body author { login } repository { url stargazers { totalCount } owner { avatarUrl } } labels(first: 10) { edges { node { name } } } comments(first: 10) { edges { node { author { login } body } } } timelineItems(first: 10, itemTypes: [CLOSED_EVENT]) { edges { node { ... on ClosedEvent { stateReason closer { __typename ... on PullRequest { title url author { login } } } } } } } }";

pub const PULL_FIELDS: &'static str = "... on PullRequest { title url author { login } repository { url } labels(first: 10) { edges { node { name } } } reviews(first: 5, states: [APPROVED]) { edges { node { author { login } state } } } mergedBy { login } timelineItems(first: 5, itemTypes: [CONNECTED_EVENT]) { edges { node { ... on ConnectedEvent { subject { ... on Issue { url } } } } } } }";

pub const DOCUMENT_START: &'static str = "query { search(query: \"";

pub const DOCUMENT_PAGING: &'static str = "\", type: ISSUE, first: 100, after: ";

pub const DOCUMENT_NODES: &'static str = ") { issueCount edges { node { ";

pub const DOCUMENT_END: &'static str = " } } pageInfo { endCursor hasNextPage } } }";

/// The `after` argument: `null` on the first page, else the quoted cursor.
pub open spec fn cursor_literal(cursor: Option<Seq<char>>) -> Seq<char> {
    match cursor {
        Some(c) => "\""@ + c + "\""@,
        None => "null"@,
    }
}

/// The request document for one page of a search.
pub open spec fn search_document(kind: EntityKind, query: Seq<char>, cursor: Option<Seq<char>>) -> Seq<
    char,
> {
    DOCUMENT_START@ + escape_quotes(query) + DOCUMENT_PAGING@ + cursor_literal(cursor)
        + DOCUMENT_NODES@ + selection(kind) + DOCUMENT_END@
}

/// The request document for the page of `query` that follows `cursor`, or
/// the first page where there is no cursor.
pub fn page_document(kind: EntityKind, query: &str, cursor: &Option<String>) -> (r: String)
    ensures
        r@ == search_document(
            kind,
            query@,
            match cursor {
                Some(c) => Some(c@),
                None => None,
            },
        ),
{
    let mut doc = String::from_str(DOCUMENT_START);
    let escaped = escape_query(query);
    doc.append(escaped.as_str());
    doc.append(DOCUMENT_PAGING);
    match cursor {
        Some(c) => {
            doc.append("\"");
            doc.append(c.as_str());
            doc.append("\"");
        },
        None => {
            doc.append("null");
        },
    }
    doc.append(DOCUMENT_NODES);
    match kind {
        EntityKind::OpenIssue => doc.append(OPEN_ISSUE_FIELDS),
        EntityKind::ClosedIssue => doc.append(CLOSED_ISSUE_FIELDS),
        EntityKind::PullRequest => doc.append(PULL_FIELDS),
    }
    doc.append(DOCUMENT_END);
    assert(doc@ =~= search_document(
        kind,
        query@,
        match cursor {
            Some(c) => Some(c@),
            None => None,
        },
    ));
    doc
}


/// What the pager knows: how many pages it has fetched, the cursor that the
/// last page handed on, and whether a page said it was the last.
pub struct PagerState {
    pub fetched: nat,
    pub cursor: Option<Seq<char>>,
    pub finished: bool,
}

/// What a page says of the pages after it: whether there are more, and the
/// cursor that leads on.
pub open spec fn page_mark(info: RawPageInfo) -> (bool, Option<Seq<char>>) {
    (
        info.has_next_page,
        match info.end_cursor {
            Some(c) => Some(c@),
            None => None,
        },
    )
}

/// Whether a page leads on to another: it says there are more and hands on
/// a cursor.
pub open spec fn leads_on(mark: (bool, Option<Seq<char>>)) -> bool {
    mark.0 && mark.1 is Some
}

pub open spec fn pager_start() -> PagerState {
    PagerState { fetched: 0, cursor: None, finished: false }
}

/// No page is due once a page said it was the last or the cap is reached.
pub open spec fn pager_done(s: PagerState) -> bool {
    s.finished || s.fetched >= MAX_PAGES
}

/// The pager after one more page has come in.
pub open spec fn pager_next(s: PagerState, mark: (bool, Option<Seq<char>>)) -> PagerState {
    PagerState {
        fetched: s.fetched + 1,
        cursor: if leads_on(mark) {
            mark.1
        } else {
            s.cursor
        },
        finished: !leads_on(mark),
    }
}

/// The pager after the pages with the given marks have come in, one for each
/// request it made, until it asks for no more.
pub open spec fn pager_run(s: PagerState, marks: Seq<(bool, Option<Seq<char>>)>) -> PagerState
    decreases marks.len(),
{
    if pager_done(s) || marks.len() == 0 {
        s
    } else {
        pager_run(pager_next(s, marks[0]), marks.drop_first())
    }
}

/// Decides, page after page, whether a search needs another page and with
/// which cursor.
pub struct Pager {
    fetched: u32,
    cursor: Option<String>,
    finished: bool,
}

impl View for Pager {
    type V = PagerState;

    closed spec fn view(&self) -> PagerState {
        PagerState {
            fetched: self.fetched as nat,
            cursor: match self.cursor {
                Some(c) => Some(c@),
                None => None,
            },
            finished: self.finished,
        }
    }
}

impl Pager {
    /// A pager before the first page.
    pub fn new() -> (p: Pager)
        ensures
            p@ == pager_start(),
    {
        Pager { fetched: 0, cursor: None, finished: false }
    }

    /// Whether no further page is due.
    pub fn is_done(&self) -> (r: bool)
        ensures
            r == pager_done(self@),
    {
        self.finished || self.fetched >= MAX_PAGES
    }

    /// How many pages have come in.
    pub fn pages_fetched(&self) -> (r: u32)
        ensures
            r as nat == self@.fetched,
    {
        self.fetched
    }

    /// The request document of the next page of `query`, carrying the cursor
    /// of the page before; `None` once no page is due.
    pub fn next_request(&self, kind: EntityKind, query: &str) -> (r: Option<String>)
        ensures
            pager_done(self@) ==> r is None,
            !pager_done(self@) ==> (r matches Some(d) && d@ == search_document(
                kind,
                query@,
                self@.cursor,
            )),
    {
        if self.is_done() {
            None
        } else {
            Some(page_document(kind, query, &self.cursor))
        }
    }

    /// Takes in the page that answered the last request.
    pub fn record_page(&mut self, info: &RawPageInfo)
        requires
            !pager_done(old(self)@),
        ensures
            final(self)@ == pager_next(old(self)@, page_mark(*info)),
    {
        self.fetched = self.fetched + 1;
        if info.has_next_page {
            if let Some(c) = &info.end_cursor {
                self.cursor = Some(c.clone());
                return ;
            }
        }
        self.finished = true;
    }
}

proof fn lemma_run_leading_pages(s: PagerState, marks: Seq<(bool, Option<Seq<char>>)>)
    requires
        !s.finished,
        s.fetched <= MAX_PAGES,
        marks.len() >= MAX_PAGES - s.fetched,
        forall|i: int| 0 <= i < marks.len() ==> leads_on(#[trigger] marks[i]),
    ensures
        pager_run(s, marks).fetched == MAX_PAGES,
        pager_done(pager_run(s, marks)),
    decreases marks.len(),
{
    if !pager_done(s) {
        let t = pager_next(s, marks[0]);
        assert forall|i: int| 0 <= i < marks.drop_first().len() implies leads_on(
            #[trigger] marks.drop_first()[i],
        ) by {
            assert(marks.drop_first()[i] == marks[i + 1]);
        }
        lemma_run_leading_pages(t, marks.drop_first());
    }
}

/// Where every page says that more follow, exactly the cap of pages is
/// fetched and then the pager stops.
pub proof fn lemma_pages_capped(marks: Seq<(bool, Option<Seq<char>>)>)
    requires
        marks.len() >= MAX_PAGES,
        forall|i: int| 0 <= i < marks.len() ==> leads_on(#[trigger] marks[i]),
    ensures
        pager_run(pager_start(), marks).fetched == MAX_PAGES,
        pager_done(pager_run(pager_start(), marks)),
{
    lemma_run_leading_pages(pager_start(), marks);
}

proof fn lemma_run_until_last(s: PagerState, marks: Seq<(bool, Option<Seq<char>>)>, k: int)
    requires
        !s.finished,
        1 <= k <= marks.len(),
        s.fetched + k <= MAX_PAGES,
        forall|i: int| 0 <= i < k - 1 ==> leads_on(#[trigger] marks[i]),
        !leads_on(marks[k - 1]),
    ensures
        pager_run(s, marks).fetched == s.fetched + k,
        pager_run(s, marks).finished,
    decreases k,
{
    let t = pager_next(s, marks[0]);
    let rest = marks.drop_first();
    if k == 1 {
        assert(t.finished);
        assert(pager_run(t, rest) == t);
    } else {
        assert(leads_on(marks[0]));
        assert forall|i: int| 0 <= i < k - 2 implies leads_on(#[trigger] rest[i]) by {
            assert(rest[i] == marks[i + 1]);
        }
        assert(rest[k - 2] == marks[k - 1]);
        lemma_run_until_last(t, rest, k - 1);
    }
}

/// Where page `k` (counted from 1, at most the cap) is the first that says no
/// more follow, exactly `k` pages are fetched, in order, and the pager stops.
pub proof fn lemma_pages_until_last(marks: Seq<(bool, Option<Seq<char>>)>, k: int)
    requires
        1 <= k <= marks.len(),
        k <= MAX_PAGES,
        forall|i: int| 0 <= i < k - 1 ==> leads_on(#[trigger] marks[i]),
        !leads_on(marks[k - 1]),
    ensures
        pager_run(pager_start(), marks).fetched == k,
        pager_done(pager_run(pager_start(), marks)),
{
    lemma_run_until_last(pager_start(), marks, k);
}


/// The search results of a response; a response without them is a decode
/// error.
pub fn search_of<T>(resp: RawResponse<T>) -> (r: Result<RawSearch<T>, FetchError>)
    ensures
        match resp.data {
            Some(d) => match d.search {
                Some(found) => r == Ok::<RawSearch<T>, FetchError>(found),
                None => r == Err::<RawSearch<T>, FetchError>(FetchError::Decode),
            },
            None => r == Err::<RawSearch<T>, FetchError>(FetchError::Decode),
        },
{
    match resp.data {
        Some(d) => match d.search {
            Some(found) => Ok(found),
            None => Err(FetchError::Decode),
        },
        None => Err(FetchError::Decode),
    }
}

/// The edges of a page, none where they are absent.
pub open spec fn page_edges<T>(edges: Option<Vec<RawEdge<T>>>) -> Seq<RawEdge<T>> {
    match edges {
        Some(v) => v@,
        None => Seq::empty(),
    }
}

/// The open-issue records of a page: one for each node, in order.
pub fn open_issues_of_page(edges: &Option<Vec<RawEdge<RawIssue>>>) -> (r: Vec<OuterIssue>)
    ensures
        r@.len() == nodes_of(page_edges(*edges)).len(),
        forall|i: int|
            0 <= i < r@.len() ==> is_open_issue_of(#[trigger] r@[i], nodes_of(page_edges(*edges))[i]),
{
    let mut out: Vec<OuterIssue> = Vec::new();
    if let Some(v) = edges {
        let mut i: usize = 0;
        while i < v.len()
            invariant
                page_edges(*edges) == v@,
                i <= v.len(),
                out@.len() == nodes_of(v@.take(i as int)).len(),
                forall|j: int|
                    0 <= j < out@.len() ==> is_open_issue_of(
                        #[trigger] out@[j],
                        nodes_of(v@.take(i as int))[j],
                    ),
            decreases v.len() - i,
        {
            proof {
                lemma_nodes_of_step(v@, i as int);
            }
            if let Some(node) = &v[i].node {
                let rec = normalize_open_issue(node);
                out.push(rec);
            }
            i = i + 1;
        }
        assert(v@.take(v.len() as int) =~= v@);
    }
    out
}

/// The closed-issue records of a page: one for each node, in order.
pub fn closed_issues_of_page(edges: &Option<Vec<RawEdge<RawIssue>>>) -> (r: Vec<CloseOuterIssue>)
    ensures
        r@.len() == nodes_of(page_edges(*edges)).len(),
        forall|i: int|
            0 <= i < r@.len() ==> is_closed_issue_of(
                #[trigger] r@[i],
                nodes_of(page_edges(*edges))[i],
            ),
{
    let mut out: Vec<CloseOuterIssue> = Vec::new();
    if let Some(v) = edges {
        let mut i: usize = 0;
        while i < v.len()
            invariant
                page_edges(*edges) == v@,
                i <= v.len(),
                out@.len() == nodes_of(v@.take(i as int)).len(),
                forall|j: int|
                    0 <= j < out@.len() ==> is_closed_issue_of(
                        #[trigger] out@[j],
                        nodes_of(v@.take(i as int))[j],
                    ),
            decreases v.len() - i,
        {
            proof {
                lemma_nodes_of_step(v@, i as int);
            }
            if let Some(node) = &v[i].node {
                let rec = normalize_closed_issue(node);
                out.push(rec);
            }
            i = i + 1;
        }
        assert(v@.take(v.len() as int) =~= v@);
    }
    out
}

/// The pull-request records of a page: one for each node, in order.
pub fn pulls_of_page(edges: &Option<Vec<RawEdge<RawPull>>>) -> (r: Vec<OuterPull>)
    ensures
        r@.len() == nodes_of(page_edges(*edges)).len(),
        forall|i: int|
            0 <= i < r@.len() ==> is_pull_of(#[trigger] r@[i], nodes_of(page_edges(*edges))[i]),
{
    let mut out: Vec<OuterPull> = Vec::new();
    if let Some(v) = edges {
        let mut i: usize = 0;
        while i < v.len()
            invariant
                page_edges(*edges) == v@,
                i <= v.len(),
                out@.len() == nodes_of(v@.take(i as int)).len(),
                forall|j: int|
                    0 <= j < out@.len() ==> is_pull_of(
                        #[trigger] out@[j],
                        nodes_of(v@.take(i as int))[j],
                    ),
            decreases v.len() - i,
        {
            proof {
                lemma_nodes_of_step(v@, i as int);
            }
            if let Some(node) = &v[i].node {
                let rec = normalize_pull(node);
                out.push(rec);
            }
            i = i + 1;
        }
        assert(v@.take(v.len() as int) =~= v@);
    }
    out
}

/// The connected-pull-request records of a page: one for each node, in order.
pub fn simple_pulls_of_page(edges: &Option<Vec<RawEdge<RawPull>>>) -> (r: Vec<SimplePull>)
    ensures
        r@.len() == nodes_of(page_edges(*edges)).len(),
        forall|i: int|
            0 <= i < r@.len() ==> is_simple_pull_of(
                #[trigger] r@[i],
                nodes_of(page_edges(*edges))[i],
            ),
{
    let mut out: Vec<SimplePull> = Vec::new();
    if let Some(v) = edges {
        let mut i: usize = 0;
        while i < v.len()
            invariant
                page_edges(*edges) == v@,
                i <= v.len(),
                out@.len() == nodes_of(v@.take(i as int)).len(),
                forall|j: int|
                    0 <= j < out@.len() ==> is_simple_pull_of(
                        #[trigger] out@[j],
                        nodes_of(v@.take(i as int))[j],
                    ),
            decreases v.len() - i,
        {
            proof {
                lemma_nodes_of_step(v@, i as int);
            }
            if let Some(node) = &v[i].node {
                let rec = normalize_simple_pull(node);
                out.push(rec);
            }
            i = i + 1;
        }
        assert(v@.take(v.len() as int) =~= v@);
    }
    out
}

} // verus!
