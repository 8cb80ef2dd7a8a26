use campaign_tracker::fetch::{
    escape_query, open_issues_of_page, page_document, pulls_of_page, search_of, FetchError, Pager,
    MAX_PAGES,
};
use campaign_tracker::planner::EntityKind;
use campaign_tracker::schema::{RawData, RawEdge, RawIssue, RawPageInfo, RawPull, RawResponse, RawSearch};

fn mark(has_next: bool, cursor: Option<&str>) -> RawPageInfo {
    RawPageInfo { end_cursor: cursor.map(|c| c.to_string()), has_next_page: has_next }
}

/// Runs a pager over the given page marks the way a fetch loop does, and
/// returns the cursor argument seen in each request.
fn run(marks: &[RawPageInfo]) -> (u32, Vec<String>) {
    let mut pager = Pager::new();
    let mut afters = Vec::new();
    let mut next = 0;
    while let Some(doc) = pager.next_request(EntityKind::OpenIssue, "label:x") {
        let after = doc.split("after: ").nth(1).unwrap().split(')').next().unwrap().to_string();
        afters.push(after);
        pager.record_page(&marks[next]);
        next += 1;
    }
    assert!(pager.is_done());
    (pager.pages_fetched(), afters)
}

#[test]
fn three_pages_then_stop() {
    let marks = vec![mark(true, Some("c1")), mark(true, Some("c2")), mark(false, None), mark(true, Some("c4"))];
    let (pages, afters) = run(&marks);
    assert_eq!(pages, 3);
    assert_eq!(afters, vec!["null".to_string(), "\"c1\"".to_string(), "\"c2\"".to_string()]);
}

#[test]
fn endless_pages_stop_at_cap() {
    let marks: Vec<RawPageInfo> = (0..25).map(|i| mark(true, Some(&format!("c{}", i)))).collect();
    let (pages, afters) = run(&marks);
    assert_eq!(pages, MAX_PAGES);
    assert_eq!(pages, 10);
    assert_eq!(afters[9], "\"c8\"");
}

#[test]
fn more_pages_without_cursor_stops() {
    let marks = vec![mark(true, Some("c1")), mark(true, None), mark(true, Some("c3"))];
    let (pages, _) = run(&marks);
    assert_eq!(pages, 2);
}

#[test]
fn single_last_page() {
    let (pages, afters) = run(&[mark(false, Some("ignored"))]);
    assert_eq!(pages, 1);
    assert_eq!(afters, vec!["null".to_string()]);
}

#[test]
fn escape_query_quotes() {
    assert_eq!(escape_query("repo:\"a b\" x"), "repo:\\\"a b\\\" x");
    assert_eq!(escape_query(""), "");
    assert_eq!(escape_query("plain"), "plain");
}

#[test]
fn page_document_shape() {
    let first = page_document(EntityKind::ClosedIssue, "label:\"hf\"", &None);
    assert!(first.starts_with("query { search(query: \"label:\\\"hf\\\"\", type: ISSUE, first: 100, after: null) {"));
    assert!(first.contains("timelineItems(first: 10, itemTypes: [CLOSED_EVENT])"));
    assert!(first.ends_with("pageInfo { endCursor hasNextPage } } }"));
    let next = page_document(EntityKind::PullRequest, "q", &Some("Y3Vy".to_string()));
    assert!(next.contains("after: \"Y3Vy\")"));
    assert!(next.contains("... on PullRequest {"));
    let open = page_document(EntityKind::OpenIssue, "q", &None);
    assert!(open.contains("owner { avatarUrl }"));
    assert!(!open.contains("timelineItems"));
}

#[test]
fn response_without_results_is_decode_error() {
    let none: RawResponse<RawIssue> = RawResponse { data: None };
    assert_eq!(search_of(none), Err(FetchError::Decode));
    let no_search: RawResponse<RawIssue> = RawResponse { data: Some(RawData { search: None }) };
    assert_eq!(search_of(no_search), Err(FetchError::Decode));
    let found: RawResponse<RawIssue> = RawResponse {
        data: Some(RawData { search: Some(RawSearch { edges: None, page_info: mark(false, None) }) }),
    };
    assert_eq!(search_of(found).unwrap().page_info, mark(false, None));
}

fn issue(title: &str) -> RawIssue {
    RawIssue {
        title: Some(title.to_string()),
        url: None,
        body: None,
        author: None,
        repository: None,
        labels: None,
        comments: None,
        timeline_items: None,
    }
}

#[test]
fn page_records_follow_node_order() {
    let edges = Some(vec![
        RawEdge { node: Some(issue("one")) },
        RawEdge { node: None },
        RawEdge { node: Some(issue("two")) },
    ]);
    let recs = open_issues_of_page(&edges);
    assert_eq!(recs.len(), 2);
    assert_eq!(recs[0].title, "one");
    assert_eq!(recs[1].title, "two");
    assert!(open_issues_of_page(&None).is_empty());
    let pulls: Option<Vec<RawEdge<RawPull>>> = Some(vec![]);
    assert!(pulls_of_page(&pulls).is_empty());
}
