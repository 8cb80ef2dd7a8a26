use campaign_tracker::dates::{MAX_DAY, MIN_DAY};
use campaign_tracker::planner::{
    dated_window_query, entity_kind, hourly_window, inner_query_1_hour, inner_query_by_date_range, inner_query_n_days,
    inner_query_vec_by_date_range, plan_day_windows, window_query, DayWindow, EntityKind,
    PlanError, WINDOW_COUNT,
};

const OPEN_2023: &str =
    "label:hacktoberfest is:issue is:open no:assignee created:2023-10-01..2023-10-03 -label:spam -label:invalid";

#[test]
fn day_numbers_are_written_as_dates() {
    let w = DayWindow { start: 738794, end: 738794 + 31 };
    let q = dated_window_query(EntityKind::ClosedIssue, "hf", "hfa", w).unwrap();
    assert_eq!(q, "label:hf is:issue is:closed created:2023-10-01..2023-11-01 -label:spam -label:invalid");
    let epoch = DayWindow { start: 719163, end: 719164 };
    let q = dated_window_query(EntityKind::OpenIssue, "hf", "hfa", epoch).unwrap();
    assert!(q.contains("created:1970-01-01..1970-01-02 "));
}

#[test]
fn day_numbers_outside_the_calendar_are_refused() {
    let w = DayWindow { start: 738794, end: i32::MAX };
    assert_eq!(dated_window_query(EntityKind::OpenIssue, "hf", "hfa", w), None);
    let w = DayWindow { start: i32::MIN, end: 0 };
    assert_eq!(dated_window_query(EntityKind::OpenIssue, "hf", "hfa", w), None);
    let w = DayWindow { start: MIN_DAY - 1, end: 0 };
    assert_eq!(dated_window_query(EntityKind::OpenIssue, "hf", "hfa", w), None);
    let w = DayWindow { start: 0, end: MAX_DAY + 1 };
    assert_eq!(dated_window_query(EntityKind::OpenIssue, "hf", "hfa", w), None);
}

#[test]
fn calendar_edges_are_written() {
    let w = DayWindow { start: MIN_DAY, end: MAX_DAY };
    let q = dated_window_query(EntityKind::OpenIssue, "hf", "hfa", w).unwrap();
    assert!(q.contains("created:-262143-01-01..+262142-12-31 "), "{}", q);
}

#[test]
fn start_dates_that_are_no_dates_are_refused() {
    for bad in ["2023-13-01", "2023-02-30", "october", "", "2023-10-01 ", "2023-10 -01"] {
        assert_eq!(inner_query_n_days(bad, 2, "a", "b", true, true), Err(PlanError::BadStartDate));
    }
}

#[test]
fn window_query_open_issue_text() {
    let q = window_query(
        EntityKind::OpenIssue,
        "hacktoberfest",
        "hacktoberfest-accepted",
        "2023-10-01",
        "2023-10-03",
    );
    assert_eq!(q, OPEN_2023);
}

#[test]
fn window_query_closed_and_pull_texts() {
    let closed = window_query(EntityKind::ClosedIssue, "hf", "hfa", "2023-10-01", "2023-10-02");
    assert_eq!(closed, "label:hf is:issue is:closed created:2023-10-01..2023-10-02 -label:spam -label:invalid");
    let pull = window_query(EntityKind::PullRequest, "hf", "hfa", "2023-10-01", "2023-10-02");
    assert_eq!(
        pull,
        "label:hfa is:pr is:merged created:2023-10-01..2023-10-02 review:approved -label:spam -label:invalid"
    );
}

#[test]
fn single_window_scenario() {
    let q = inner_query_n_days("2023-10-01", 2, "hacktoberfest", "hacktoberfest-accepted", true, true);
    assert_eq!(q, Ok(OPEN_2023.to_string()));
    assert!(q.unwrap().contains("created:2023-10-01..2023-10-03"));
}

#[test]
fn single_window_embeds_label_range_and_exclusion() {
    for (is_issue, is_start, label) in [(true, true, "issue-l"), (true, false, "issue-l"), (false, false, "pr-l")] {
        let q = inner_query_n_days("2024-02-28", 3, "issue-l", "pr-l", is_issue, is_start).unwrap();
        assert!(q.starts_with(&format!("label:{} ", label)));
        assert!(q.contains(":2024-02-28..2024-03-02 "));
        assert!(q.ends_with(" -label:spam -label:invalid"));
    }
}

#[test]
fn single_window_errors() {
    assert_eq!(inner_query_n_days("2023/10/01", 2, "a", "b", true, true), Err(PlanError::BadStartDate));
    assert_eq!(inner_query_n_days("2023-10-01", 0, "a", "b", true, true), Err(PlanError::InvalidWindow));
    assert_eq!(inner_query_n_days("2023-10-01", -3, "a", "b", true, true), Err(PlanError::InvalidWindow));
    assert_eq!(inner_query_n_days("2023-10-01", i64::MAX, "a", "b", true, true), Err(PlanError::OutOfRange));
    assert_eq!(
        inner_query_n_days("2023-10-01", 200_000_000, "a", "b", true, true),
        Err(PlanError::OutOfRange)
    );
}

#[test]
fn multi_window_plan_is_contiguous() {
    let qs = inner_query_vec_by_date_range("2023-10-01", 2, "hacktoberfest", "hacktoberfest-accepted", true, true)
        .unwrap();
    assert_eq!(qs.len(), WINDOW_COUNT as usize);
    assert_eq!(qs.len(), 19);
    assert_eq!(qs[0], OPEN_2023);
    assert!(qs[1].contains("created:2023-10-03..2023-10-05 "));
    assert!(qs[18].contains("created:2023-11-06..2023-11-08 "));
    for w in qs.windows(2) {
        let end = w[0].split("..").nth(1).unwrap().split(' ').next().unwrap().to_string();
        let start = w[1].split("created:").nth(1).unwrap().split("..").next().unwrap().to_string();
        assert_eq!(end, start);
    }
}

#[test]
fn multi_window_plan_same_under_both_names() {
    let a = inner_query_vec_by_date_range("2023-10-01", 3, "x", "y", false, false).unwrap();
    let b = inner_query_by_date_range("2023-10-01", 3, "x", "y", false, false).unwrap();
    assert_eq!(a, b);
    assert_eq!(
        a[0],
        "label:y is:pr is:merged created:2023-10-01..2023-10-04 review:approved -label:spam -label:invalid"
    );
}

#[test]
fn multi_window_errors() {
    assert_eq!(inner_query_vec_by_date_range("not a date", 2, "a", "b", true, false), Err(PlanError::BadStartDate));
    assert_eq!(inner_query_vec_by_date_range("2023-10-01", 0, "a", "b", true, false), Err(PlanError::InvalidWindow));
    assert_eq!(
        inner_query_vec_by_date_range("2023-10-01", 10_000_000, "a", "b", true, false),
        Err(PlanError::OutOfRange)
    );
}

#[test]
fn day_windows_start_at_multiples_of_width() {
    let ws = plan_day_windows(100, 7, 3).unwrap();
    assert_eq!(
        ws,
        vec![
            DayWindow { start: 100, end: 107 },
            DayWindow { start: 107, end: 114 },
            DayWindow { start: 114, end: 121 },
        ]
    );
    assert_eq!(plan_day_windows(5, 1, 0).unwrap(), vec![]);
}

#[test]
fn day_windows_bounds() {
    assert_eq!(plan_day_windows(MAX_DAY - 10, 5, 2).unwrap().len(), 2);
    assert_eq!(plan_day_windows(MAX_DAY - 10, 5, 3), Err(PlanError::OutOfRange));
    assert_eq!(plan_day_windows(MAX_DAY + 1, 5, 0), Err(PlanError::OutOfRange));
    assert_eq!(plan_day_windows(i32::MAX, 1, 1), Err(PlanError::OutOfRange));
    assert_eq!(plan_day_windows(0, 0, 3), Err(PlanError::InvalidWindow));
    assert_eq!(plan_day_windows(0, i64::MAX, 1), Err(PlanError::OutOfRange));
}

#[test]
fn hourly_queries() {
    let open = inner_query_1_hour("2023-10-01", "2023-10-02T05:00:00", "2023-10-02T06:00:00", "hf", "hfa", true, false, true);
    assert_eq!(
        open,
        "label:hf is:issue is:open no:assignee created:2023-10-02T05:00:00..2023-10-02T06:00:00 -label:spam -label:invalid"
    );
    let closed = inner_query_1_hour("2023-10-01", "a", "b", "hf", "hfa", true, false, false);
    assert_eq!(closed, "label:hf is:issue is:closed updated:a..b -label:spam -label:invalid");
    let comment = inner_query_1_hour("2023-10-01", "a", "b", "hf", "hfa", false, true, false);
    assert_eq!(comment, "label:hf is:issue is:open created:>=2023-10-01 updated:a..b -label:spam -label:invalid");
    let pull = inner_query_1_hour("2023-10-01", "a", "b", "hf", "hfa", false, false, false);
    assert_eq!(pull, "label:hfa is:pr is:merged merged:a..b review:approved -label:spam -label:invalid");
}

#[test]
fn entity_kind_from_flags() {
    assert_eq!(entity_kind(true, true), EntityKind::OpenIssue);
    assert_eq!(entity_kind(true, false), EntityKind::ClosedIssue);
    assert_eq!(entity_kind(false, true), EntityKind::PullRequest);
    assert_eq!(entity_kind(false, false), EntityKind::PullRequest);
}

#[test]
fn hourly_window_bounds() {
    assert_eq!(
        hourly_window("2023-10-01", "2023-10-05", 7),
        Ok(("2023-10-05T07:00:00".to_string(), "2023-10-05T08:00:00".to_string()))
    );
    assert_eq!(
        hourly_window("2023-10-01", "2023-10-01", 0),
        Ok(("2023-10-01T00:00:00".to_string(), "2023-10-01T01:00:00".to_string()))
    );
    assert_eq!(
        hourly_window("2023-10-01", "2023-10-31", 23),
        Ok(("2023-10-31T23:00:00".to_string(), "2023-11-01T00:00:00".to_string()))
    );
}

#[test]
fn hourly_window_errors() {
    assert_eq!(hourly_window("2023-10-01", "2023-09-30", 5), Err(PlanError::NotStarted));
    assert_eq!(hourly_window("2023-10-01", "2023-10-02", 24), Err(PlanError::InvalidHour));
    assert_eq!(hourly_window("2023-1O-01", "2023-10-02", 1), Err(PlanError::BadStartDate));
    assert_eq!(hourly_window("2023-10-01", "today", 1), Err(PlanError::BadCurrentDate));
    assert_eq!(hourly_window("2023-10-01", "+262142-12-31", 23), Err(PlanError::OutOfRange));
}
