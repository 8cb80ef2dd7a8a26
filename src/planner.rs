//! Search queries for a campaign: the text of one query, and plans that cut a
//! tracking period into consecutive windows of a fixed number of days.
use crate::dates::{
    format_iso_day, in_calendar, iso_text, parse_day, parsed_day, ISO_FORMAT, MAX_DAY,
};
use crate::schema::strings_view;
use vstd::prelude::*;

verus! {

/// What a query looks for.
#[derive(Clone, Copy, Debug, PartialEq, Eq, Structural)]
pub enum EntityKind {
    OpenIssue,
    ClosedIssue,
    PullRequest,
}

/// Why no plan could be made.
#[derive(Clone, Copy, Debug, PartialEq, Eq, Structural)]
pub enum PlanError {
    /// The start date is no calendar date in the form `YYYY-MM-DD`.
    BadStartDate,
    /// The window width is not a positive number of days.
    InvalidWindow,
    /// A window bound falls after the last date of the calendar.
    OutOfRange,
    /// The current date is no calendar date in the form `YYYY-MM-DD`.
    BadCurrentDate,
    /// The current date lies before the start of the campaign.
    NotStarted,
    /// The hour of the day is not below 24.
    InvalidHour,
}

/// The exclusion that closes every query.
pub const EXCLUSION: &'static str = " -label:spam -label:invalid";

/// Number of windows in a multi-window plan.
pub const WINDOW_COUNT: u32 = 19;

pub open spec fn kind_for(is_issue: bool, is_start: bool) -> EntityKind {
    if is_issue && is_start {
        EntityKind::OpenIssue
    } else if is_issue {
        EntityKind::ClosedIssue
    } else {
        EntityKind::PullRequest
    }
}

/// The kind that the flag pair `(is_issue, is_start)` selects.
pub fn entity_kind(is_issue: bool, is_start: bool) -> (k: EntityKind)
    ensures
        k == kind_for(is_issue, is_start),
{
    if is_issue && is_start {
        EntityKind::OpenIssue
    } else if is_issue {
        EntityKind::ClosedIssue
    } else {
        EntityKind::PullRequest
    }
}

pub open spec fn range_text(from: Seq<char>, to: Seq<char>) -> Seq<char> {
    from + ".."@ + to
}

/// Everything of a windowed query that stands before its date range.
pub open spec fn query_head(kind: EntityKind, issue_label: Seq<char>, pr_label: Seq<char>) -> Seq<char> {
    match kind {
        EntityKind::OpenIssue => "label:"@ + issue_label + " is:issue is:open no:assignee created:"@,
        EntityKind::ClosedIssue => "label:"@ + issue_label + " is:issue is:closed created:"@,
        EntityKind::PullRequest => "label:"@ + pr_label + " is:pr is:merged created:"@,
    }
}

/// Everything of a windowed query that stands after its date range.
pub open spec fn query_tail(kind: EntityKind) -> Seq<char> {
    match kind {
        EntityKind::PullRequest => " review:approved"@ + EXCLUSION@,
        _ => EXCLUSION@,
    }
}

pub open spec fn window_search_text(
    kind: EntityKind,
    issue_label: Seq<char>,
    pr_label: Seq<char>,
    range: Seq<char>,
) -> Seq<char> {
    query_head(kind, issue_label, pr_label) + range + query_tail(kind)
}

/// The query of one window whose bounds are already written as dates.
pub fn window_query(kind: EntityKind, issue_label: &str, pr_label: &str, from: &str, to: &str) -> (r:
    String)
    ensures
        r@ == window_search_text(kind, issue_label@, pr_label@, range_text(from@, to@)),
{
    let mut s = String::from_str("label:");
    match kind {
        EntityKind::OpenIssue => {
            s.append(issue_label);
            s.append(" is:issue is:open no:assignee created:");
        },
        EntityKind::ClosedIssue => {
            s.append(issue_label);
            s.append(" is:issue is:closed created:");
        },
        EntityKind::PullRequest => {
            s.append(pr_label);
            s.append(" is:pr is:merged created:");
        },
    }
    let ghost head = s@;
    s.append(from);
    s.append("..");
    s.append(to);
    if kind == EntityKind::PullRequest {
        s.append(" review:approved");
    }
    s.append(EXCLUSION);
    assert(s@ =~= head + range_text(from@, to@) + query_tail(kind));
    s
}

/// The decimal digits, in order.
pub const DIGITS: &'static str = "0123456789";

/// An hour of the day as two digits.
pub open spec fn hour_text(h: int) -> Seq<char> {
    seq![DIGITS@[h / 10], DIGITS@[h % 10]]
}

/// The start of hour `h` of the day written `date`, as `YYYY-MM-DDTHH:00:00`.
pub open spec fn hour_mark(date: Seq<char>, h: int) -> Seq<char> {
    date + "T"@ + hour_text(h) + ":00:00"@
}

/// The hour-long window of the campaign that holds hour `hour` of the day
/// `today`, as its two bounds.
pub open spec fn hourly_plan(campaign_start: Seq<char>, today: Seq<char>, hour: int) -> Result<
    (Seq<char>, Seq<char>),
    PlanError,
> {
    match parsed_day(campaign_start, ISO_FORMAT@) {
        None => Err(PlanError::BadStartDate),
        Some(s) => match parsed_day(today, ISO_FORMAT@) {
            None => Err(PlanError::BadCurrentDate),
            Some(t) => if hour >= 24 {
                Err(PlanError::InvalidHour)
            } else if t < s {
                Err(PlanError::NotStarted)
            } else if hour < 23 {
                Ok((hour_mark(iso_text(t), hour), hour_mark(iso_text(t), hour + 1)))
            } else if t + 1 > MAX_DAY {
                Err(PlanError::OutOfRange)
            } else {
                Ok((hour_mark(iso_text(t), hour), hour_mark(iso_text((t + 1) as i32), 0)))
            },
        },
    }
}

/// `date` followed by the start of hour `h`, as `YYYY-MM-DDTHH:00:00`.
fn write_hour_mark(date: &str, h: u32) -> (r: String)
    requires
        h < 24,
    ensures
        r@ == hour_mark(date@, h as int),
{
    proof {
        reveal_strlit("0123456789");
    }
    let tens = (h / 10) as usize;
    let ones = (h % 10) as usize;
    let mut r = String::from_str(date);
    r.append("T");
    let t = DIGITS.substring_char(tens, tens + 1);
    let o = DIGITS.substring_char(ones, ones + 1);
    assert(t@ =~= seq![DIGITS@[tens as int]]);
    assert(o@ =~= seq![DIGITS@[ones as int]]);
    r.append(t);
    r.append(o);
    r.append(":00:00");
    assert(r@ =~= hour_mark(date@, h as int));
    r
}

/// The bounds of the hour-long window that holds hour `hour` of the day
/// `today`, within a campaign that started on `campaign_start`; the window of
/// the last hour of a day ends at the start of the next day.
pub fn hourly_window(campaign_start: &str, today: &str, hour: u32) -> (r: Result<
    (String, String),
    PlanError,
>)
    ensures
        match r {
            Ok((a, b)) => hourly_plan(campaign_start@, today@, hour as int) == Ok::<
                (Seq<char>, Seq<char>),
                PlanError,
            >((a@, b@)),
            Err(e) => hourly_plan(campaign_start@, today@, hour as int) == Err::<
                (Seq<char>, Seq<char>),
                PlanError,
            >(e),
        },
{
    let start = match parse_day(campaign_start, ISO_FORMAT) {
        Some(d) => d,
        None => return Err(PlanError::BadStartDate),
    };
    let day = match parse_day(today, ISO_FORMAT) {
        Some(d) => d,
        None => return Err(PlanError::BadCurrentDate),
    };
    if hour >= 24 {
        return Err(PlanError::InvalidHour);
    }
    if day < start {
        return Err(PlanError::NotStarted);
    }
    let date = format_iso_day(day).unwrap();
    let from = write_hour_mark(date.as_str(), hour);
    if hour < 23 {
        let to = write_hour_mark(date.as_str(), hour + 1);
        Ok((from, to))
    } else if day >= MAX_DAY {
        Err(PlanError::OutOfRange)
    } else {
        let next = format_iso_day(day + 1).unwrap();
        let to = write_hour_mark(next.as_str(), 0);
        Ok((from, to))
    }
}

pub open spec fn hourly_search_text(
    start_date: Seq<char>,
    range: Seq<char>,
    issue_label: Seq<char>,
    pr_label: Seq<char>,
    is_issue: bool,
    is_comment: bool,
    is_start: bool,
) -> Seq<char> {
    if is_issue && is_start {
        "label:"@ + issue_label + " is:issue is:open no:assignee created:"@ + range + EXCLUSION@
    } else if is_issue {
        "label:"@ + issue_label + " is:issue is:closed updated:"@ + range + EXCLUSION@
    } else if is_comment {
        "label:"@ + issue_label + " is:issue is:open created:>="@ + start_date + " updated:"@ + range
            + EXCLUSION@
    } else {
        "label:"@ + pr_label + " is:pr is:merged merged:"@ + range + " review:approved"@ + EXCLUSION@
    }
}

/// The query of one hour-long window `start_hour..end_hour`: open issues by
/// creation, closed issues by update, commented issues (created since
/// `start_date`) by update, or merged pull requests by merge time.
pub fn inner_query_1_hour(
    start_date: &str,
    start_hour: &str,
    end_hour: &str,
    issue_label: &str,
    pr_label: &str,
    is_issue: bool,
    is_comment: bool,
    is_start: bool,
) -> (r: String)
    ensures
        r@ == hourly_search_text(
            start_date@,
            range_text(start_hour@, end_hour@),
            issue_label@,
            pr_label@,
            is_issue,
            is_comment,
            is_start,
        ),
{
    let mut s = String::from_str("label:");
    if is_issue && is_start {
        s.append(issue_label);
        s.append(" is:issue is:open no:assignee created:");
    } else if is_issue {
        s.append(issue_label);
        s.append(" is:issue is:closed updated:");
    } else if is_comment {
        s.append(issue_label);
        s.append(" is:issue is:open created:>=");
        s.append(start_date);
        s.append(" updated:");
    } else {
        s.append(pr_label);
        s.append(" is:pr is:merged merged:");
    }
    let ghost head = s@;
    s.append(start_hour);
    s.append("..");
    s.append(end_hour);
    if !is_issue && !is_comment {
        s.append(" review:approved");
    }
    s.append(EXCLUSION);
    assert(s@ =~= hourly_search_text(
        start_date@,
        range_text(start_hour@, end_hour@),
        issue_label@,
        pr_label@,
        is_issue,
        is_comment,
        is_start,
    ));
    s
}


/// A half-open range of days `[start, end)`, as day numbers.
#[derive(Clone, Copy, Debug, PartialEq, Eq, Structural)]
pub struct DayWindow {
    pub start: i32,
    pub end: i32,
}

/// First day of window `i` of a plan from `start_day` with width `n_days`.
#[verifier::opaque]
pub open spec fn window_start(start_day: int, n_days: int, i: int) -> int {
    start_day + i * n_days
}

/// Whether `count` windows of positive width end within the calendar.
pub open spec fn windows_fit(start_day: int, n_days: int, count: int) -> bool {
    window_start(start_day, n_days, count) <= MAX_DAY
}

/// The windows of a plan, as pairs of day numbers.
pub open spec fn day_windows(start_day: int, n_days: int, count: nat) -> Seq<(int, int)> {
    Seq::new(
        count,
        |i: int| (window_start(start_day, n_days, i), window_start(start_day, n_days, i + 1)),
    )
}

pub open spec fn windows_view(v: Seq<DayWindow>) -> Seq<(int, int)> {
    v.map_values(|w: DayWindow| (w.start as int, w.end as int))
}

/// Cuts the period from `start_day` into `count` consecutive windows of
/// `n_days` days each, all ending by the calendar's last day.
pub fn plan_day_windows(start_day: i32, n_days: i64, count: u32) -> (r: Result<
    Vec<DayWindow>,
    PlanError,
>)
    ensures
        n_days <= 0 ==> r == Err::<Vec<DayWindow>, PlanError>(PlanError::InvalidWindow),
        n_days > 0 && !windows_fit(start_day as int, n_days as int, count as int) ==> r == Err::<
            Vec<DayWindow>,
            PlanError,
        >(PlanError::OutOfRange),
        n_days > 0 && windows_fit(start_day as int, n_days as int, count as int) ==> (r matches Ok(v)
            && windows_view(v@) == day_windows(start_day as int, n_days as int, count as nat)),
        r matches Ok(v) ==> forall|i: int|
            0 <= i < v@.len() ==> start_day <= (#[trigger] v@[i]).start < v@[i].end <= MAX_DAY,
{
    if n_days <= 0 {
        return Err(PlanError::InvalidWindow);
    }
    proof {
        reveal(window_start);
    }
    if start_day > MAX_DAY {
        return Err(PlanError::OutOfRange);
    }
    let mut out: Vec<DayWindow> = Vec::new();
    let mut cur: i32 = start_day;
    let mut i: u32 = 0;
    while i < count
        invariant
            n_days > 0,
            i <= count,
            out@.len() == i,
            start_day <= cur <= MAX_DAY,
            cur as int == window_start(start_day as int, n_days as int, i as int),
            windows_view(out@) == day_windows(start_day as int, n_days as int, i as nat),
            forall|j: int| 0 <= j < i ==> start_day <= (#[trigger] out@[j]).start < out@[j].end <= cur,
        decreases count - i,
    {
        proof {
            reveal(window_start);
        }
        if n_days > (MAX_DAY as i64) - (cur as i64) {
            proof {
                let k = count as int - i as int - 1;
                assert(k * (n_days as int) >= 0) by (nonlinear_arith)
                    requires
                        k >= 0,
                        n_days > 0,
                ;
                assert(start_day + count * n_days == cur + n_days + k * n_days) by (nonlinear_arith)
                    requires
                        cur as int == start_day + i * n_days,
                        k == count - i - 1,
                ;
            }
            return Err(PlanError::OutOfRange);
        }
        let next: i32 = (cur as i64 + n_days) as i32;
        proof {
            assert(start_day + (i + 1) * n_days == cur + n_days) by (nonlinear_arith)
                requires
                    cur as int == start_day + i * n_days,
            ;
        }
        let ghost before = out@;
        out.push(DayWindow { start: cur, end: next });
        assert forall|j: int| 0 <= j < i + 1 implies #[trigger] windows_view(out@)[j] == day_windows(
            start_day as int,
            n_days as int,
            (i + 1) as nat,
        )[j] by {
            if j < i {
                assert(out@[j] == before[j]);
                assert(windows_view(before)[j] == day_windows(
                    start_day as int,
                    n_days as int,
                    i as nat,
                )[j]);
            }
        }
        assert(windows_view(out@) =~= day_windows(start_day as int, n_days as int, (i + 1) as nat));
        assert forall|j: int| 0 <= j < i + 1 implies start_day <= (#[trigger] out@[j]).start
            < out@[j].end <= next by {
            if j < i {
                assert(out@[j] == before[j]);
            }
        }
        cur = next;
        i = i + 1;
    }
    if count == 0 {
        assert(window_start(start_day as int, n_days as int, 0) == start_day);
    }
    Ok(out)
}

/// What a single-window plan gives for a start date written as text.
pub open spec fn single_window_plan(
    start_date: Seq<char>,
    n_days: int,
    kind: EntityKind,
    issue_label: Seq<char>,
    pr_label: Seq<char>,
) -> Result<Seq<char>, PlanError> {
    match parsed_day(start_date, ISO_FORMAT@) {
        None => Err(PlanError::BadStartDate),
        Some(d) => if n_days <= 0 {
            Err(PlanError::InvalidWindow)
        } else if !windows_fit(d as int, n_days, 1) {
            Err(PlanError::OutOfRange)
        } else {
            Ok(
                window_search_text(
                    kind,
                    issue_label,
                    pr_label,
                    range_text(iso_text(d), iso_text((d + n_days) as i32)),
                ),
            )
        },
    }
}

/// The query of the single window `[start_date, start_date + n_days)`.
pub fn inner_query_n_days(
    start_date: &str,
    n_days: i64,
    issue_label: &str,
    pr_label: &str,
    is_issue: bool,
    is_start: bool,
) -> (r: Result<String, PlanError>)
    ensures
        match r {
            Ok(q) => single_window_plan(
                start_date@,
                n_days as int,
                kind_for(is_issue, is_start),
                issue_label@,
                pr_label@,
            ) == Ok::<Seq<char>, PlanError>(q@),
            Err(e) => single_window_plan(
                start_date@,
                n_days as int,
                kind_for(is_issue, is_start),
                issue_label@,
                pr_label@,
            ) == Err::<Seq<char>, PlanError>(e),
        },
{
    let day = match parse_day(start_date, ISO_FORMAT) {
        Some(d) => d,
        None => return Err(PlanError::BadStartDate),
    };
    proof {
        reveal(window_start);
    }
    let windows = match plan_day_windows(day, n_days, 1) {
        Ok(v) => v,
        Err(e) => return Err(e),
    };
    assert(windows_view(windows@).len() == 1);
    let w = windows[0];
    assert(windows_view(windows@)[0] == (w.start as int, w.end as int));
    let kind = entity_kind(is_issue, is_start);
    Ok(dated_window_query(kind, issue_label, pr_label, w).unwrap())
}

/// The query of each of `count` windows from day `d`.
pub open spec fn windowed_queries(
    d: int,
    n_days: int,
    count: nat,
    kind: EntityKind,
    issue_label: Seq<char>,
    pr_label: Seq<char>,
) -> Seq<Seq<char>> {
    Seq::new(
        count,
        |i: int|
            window_search_text(
                kind,
                issue_label,
                pr_label,
                range_text(
                    iso_text(window_start(d, n_days, i) as i32),
                    iso_text(window_start(d, n_days, i + 1) as i32),
                ),
            ),
    )
}

/// What a multi-window plan gives for a start date written as text.
pub open spec fn multi_window_plan(
    start_date: Seq<char>,
    n_days: int,
    kind: EntityKind,
    issue_label: Seq<char>,
    pr_label: Seq<char>,
) -> Result<Seq<Seq<char>>, PlanError> {
    match parsed_day(start_date, ISO_FORMAT@) {
        None => Err(PlanError::BadStartDate),
        Some(d) => if n_days <= 0 {
            Err(PlanError::InvalidWindow)
        } else if !windows_fit(d as int, n_days, WINDOW_COUNT as int) {
            Err(PlanError::OutOfRange)
        } else {
            Ok(windowed_queries(d as int, n_days, WINDOW_COUNT as nat, kind, issue_label, pr_label))
        },
    }
}

/// The queries of the consecutive windows `[start_date + i * n_days,
/// start_date + (i + 1) * n_days)`, one for each window of the plan.
pub fn inner_query_vec_by_date_range(
    start_date: &str,
    n_days: i64,
    issue_label: &str,
    pr_label: &str,
    is_issue: bool,
    is_start: bool,
) -> (r: Result<Vec<String>, PlanError>)
    ensures
        match r {
            Ok(qs) => multi_window_plan(
                start_date@,
                n_days as int,
                kind_for(is_issue, is_start),
                issue_label@,
                pr_label@,
            ) == Ok::<Seq<Seq<char>>, PlanError>(qs.deep_view()),
            Err(e) => multi_window_plan(
                start_date@,
                n_days as int,
                kind_for(is_issue, is_start),
                issue_label@,
                pr_label@,
            ) == Err::<Seq<Seq<char>>, PlanError>(e),
        },
{
    let day = match parse_day(start_date, ISO_FORMAT) {
        Some(d) => d,
        None => return Err(PlanError::BadStartDate),
    };
    let windows = match plan_day_windows(day, n_days, WINDOW_COUNT) {
        Ok(v) => v,
        Err(e) => return Err(e),
    };
    let kind = entity_kind(is_issue, is_start);
    let ghost d = day as int;
    let ghost n = n_days as int;
    let ghost count = WINDOW_COUNT as nat;
    let ghost expected = windowed_queries(d, n, count, kind, issue_label@, pr_label@);
    assert(windows_view(windows@).len() == windows@.len());
    let mut out: Vec<String> = Vec::new();
    let mut i: usize = 0;
    while i < windows.len()
        invariant
            parsed_day(start_date@, ISO_FORMAT@) == Some(day),
            in_calendar(d),
            d == day as int,
            n == n_days as int,
            count == WINDOW_COUNT as nat,
            n > 0,
            windows_fit(d, n, count as int),
            kind == kind_for(is_issue, is_start),
            windows.len() == count,
            windows_view(windows@) == day_windows(d, n, count),
            forall|j: int|
                0 <= j < windows@.len() ==> day <= (#[trigger] windows@[j]).start < windows@[j].end
                    <= MAX_DAY,
            i <= count,
            expected == windowed_queries(d, n, count, kind, issue_label@, pr_label@),
            strings_view(out@) == expected.take(i as int),
        decreases count - i,
    {
        let w = windows[i];
        assert(windows_view(windows@)[i as int] == (w.start as int, w.end as int));
        assert(window_start(d, n, i as int) == w.start);
        assert(window_start(d, n, i + 1) == w.end);
        let q = dated_window_query(kind, issue_label, pr_label, w).unwrap();
        let ghost before = out@;
        out.push(q);
        assert(strings_view(out@) =~= strings_view(before).push(q@));
        assert(strings_view(out@) =~= expected.take(i + 1));
        i = i + 1;
    }
    assert(out.deep_view() =~= strings_view(out@));
    assert(out.deep_view() =~= expected);
    Ok(out)
}

/// The query of a window of day numbers, with both bounds written as dates;
/// `None` where a bound lies outside the calendar.
pub fn dated_window_query(kind: EntityKind, issue_label: &str, pr_label: &str, w: DayWindow) -> (r:
    Option<String>)
    ensures
        r is Some <==> in_calendar(w.start as int) && in_calendar(w.end as int),
        r matches Some(q) ==> q@ == window_search_text(
            kind,
            issue_label@,
            pr_label@,
            range_text(iso_text(w.start), iso_text(w.end)),
        ),
{
    let from = match format_iso_day(w.start) {
        Some(t) => t,
        None => return None,
    };
    let to = match format_iso_day(w.end) {
        Some(t) => t,
        None => return None,
    };
    Some(window_query(kind, issue_label, pr_label, from.as_str(), to.as_str()))
}

/// The same plan as [`inner_query_vec_by_date_range`], under the name that the
/// issue search uses.
pub fn inner_query_by_date_range(
    start_date: &str,
    n_days: i64,
    issue_label: &str,
    pr_label: &str,
    is_issue: bool,
    is_start: bool,
) -> (r: Result<Vec<String>, PlanError>)
    ensures
        match r {
            Ok(qs) => multi_window_plan(
                start_date@,
                n_days as int,
                kind_for(is_issue, is_start),
                issue_label@,
                pr_label@,
            ) == Ok::<Seq<Seq<char>>, PlanError>(qs.deep_view()),
            Err(e) => multi_window_plan(
                start_date@,
                n_days as int,
                kind_for(is_issue, is_start),
                issue_label@,
                pr_label@,
            ) == Err::<Seq<Seq<char>>, PlanError>(e),
        },
{
    inner_query_vec_by_date_range(start_date, n_days, issue_label, pr_label, is_issue, is_start)
}

/// The windows of a plan are consecutive and do not overlap: window `i` starts
/// `i * n_days` days after the start day, is non-empty, and ends on the day
/// where window `i + 1` starts.
pub proof fn lemma_windows_contiguous(start_day: int, n_days: int, count: nat)
    requires
        n_days > 0,
    ensures
        forall|i: int|
            0 <= i < count ==> (#[trigger] day_windows(start_day, n_days, count)[i]).0 == start_day
                + i * n_days && day_windows(start_day, n_days, count)[i].0 < day_windows(
                start_day,
                n_days,
                count,
            )[i].1,
        forall|i: int|
            0 <= i < count - 1 ==> (#[trigger] day_windows(start_day, n_days, count)[i]).1
                == day_windows(start_day, n_days, count)[i + 1].0,
{
    reveal(window_start);
    assert forall|i: int| 0 <= i < count implies (#[trigger] day_windows(
        start_day,
        n_days,
        count,
    )[i]).0 < day_windows(start_day, n_days, count)[i].1 by {
        assert(start_day + i * n_days < start_day + (i + 1) * n_days) by (nonlinear_arith)
            requires
                n_days > 0,
        ;
    }
}

/// A window's query starts with `label:` and the label of its kind, holds the
/// date range `from..to` right after its head, and always ends with the
/// spam/invalid exclusion.
pub proof fn lemma_window_query_parts(
    kind: EntityKind,
    issue_label: Seq<char>,
    pr_label: Seq<char>,
    from: Seq<char>,
    to: Seq<char>,
)
    ensures
        ({
            let t = window_search_text(kind, issue_label, pr_label, range_text(from, to));
            let label = if kind == EntityKind::PullRequest {
                pr_label
            } else {
                issue_label
            };
            let h = query_head(kind, issue_label, pr_label).len() as int;
            &&& t.subrange(0, 6) == "label:"@
            &&& t.subrange(6, 6 + label.len() as int) == label
            &&& t.subrange(h, h + from.len() + 2 + to.len()) == from + ".."@ + to
            &&& t.subrange(t.len() - EXCLUSION@.len(), t.len() as int) == EXCLUSION@
        }),
{
    reveal_strlit("label:");
    reveal_strlit("..");
    let t = window_search_text(kind, issue_label, pr_label, range_text(from, to));
    let label = if kind == EntityKind::PullRequest {
        pr_label
    } else {
        issue_label
    };
    let head = query_head(kind, issue_label, pr_label);
    let h = head.len() as int;
    let tail = query_tail(kind);
    assert(t == head + range_text(from, to) + tail);
    assert(t.subrange(0, 6) =~= "label:"@);
    assert(t.subrange(6, 6 + label.len() as int) =~= label);
    assert(t.subrange(h, h + from.len() + 2 + to.len()) =~= from + ".."@ + to);
    assert(tail.subrange(tail.len() - EXCLUSION@.len(), tail.len() as int) =~= EXCLUSION@);
    assert(t.subrange(t.len() - EXCLUSION@.len(), t.len() as int) =~= EXCLUSION@);
}


/// For a start date that parses and a positive width whose last window ends
/// within the calendar, the plan succeeds, and query `i` covers the dates of
/// days `d + i * n_days` to `d + (i + 1) * n_days`: each window is non-empty,
/// none starts before the start date or ends after the calendar, and each
/// ends on the date where the next one starts.
pub proof fn lemma_plan_windows(
    start_date: Seq<char>,
    n_days: int,
    kind: EntityKind,
    issue_label: Seq<char>,
    pr_label: Seq<char>,
    d: i32,
)
    requires
        parsed_day(start_date, ISO_FORMAT@) == Some(d),
        n_days > 0,
        d + WINDOW_COUNT * n_days <= MAX_DAY,
    ensures
        multi_window_plan(start_date, n_days, kind, issue_label, pr_label) == Ok::<
            Seq<Seq<char>>,
            PlanError,
        >(windowed_queries(d as int, n_days, WINDOW_COUNT as nat, kind, issue_label, pr_label)),
        forall|i: int|
            0 <= i < WINDOW_COUNT ==> {
                &&& #[trigger] windowed_queries(
                    d as int,
                    n_days,
                    WINDOW_COUNT as nat,
                    kind,
                    issue_label,
                    pr_label,
                )[i] == window_search_text(
                    kind,
                    issue_label,
                    pr_label,
                    range_text(
                        iso_text((d + i * n_days) as i32),
                        iso_text((d + (i + 1) * n_days) as i32),
                    ),
                )
                &&& d <= d + i * n_days < d + (i + 1) * n_days <= MAX_DAY
            },
{
    reveal(window_start);
    let qs = windowed_queries(d as int, n_days, WINDOW_COUNT as nat, kind, issue_label, pr_label);
    assert forall|i: int| 0 <= i < WINDOW_COUNT implies #[trigger] qs[i] == window_search_text(
        kind,
        issue_label,
        pr_label,
        range_text(iso_text((d + i * n_days) as i32), iso_text((d + (i + 1) * n_days) as i32)),
    ) && d <= d + i * n_days < d + (i + 1) * n_days <= MAX_DAY by {
        assert(0 <= i * n_days < (i + 1) * n_days <= WINDOW_COUNT * n_days) by (nonlinear_arith)
            requires
                0 <= i < WINDOW_COUNT,
                n_days > 0,
        ;
    }
}

/// For a start date that parses and a positive width that ends within the
/// calendar, the single-window query is exactly the window's head, the range
/// from the start date to the date `n_days` later, and its tail: it starts
/// with `label:` and the label of its kind, holds that range right after the
/// head, and ends with the spam/invalid exclusion.
pub proof fn lemma_single_window(
    start_date: Seq<char>,
    n_days: int,
    kind: EntityKind,
    issue_label: Seq<char>,
    pr_label: Seq<char>,
    d: i32,
)
    requires
        parsed_day(start_date, ISO_FORMAT@) == Some(d),
        n_days > 0,
        d + n_days <= MAX_DAY,
    ensures
        ({
            let from = iso_text(d);
            let to = iso_text((d + n_days) as i32);
            let t = window_search_text(kind, issue_label, pr_label, range_text(from, to));
            let label = if kind == EntityKind::PullRequest {
                pr_label
            } else {
                issue_label
            };
            let h = query_head(kind, issue_label, pr_label).len() as int;
            &&& single_window_plan(start_date, n_days, kind, issue_label, pr_label) == Ok::<
                Seq<char>,
                PlanError,
            >(t)
            &&& t.subrange(0, 6) == "label:"@
            &&& t.subrange(6, 6 + label.len() as int) == label
            &&& t.subrange(h, h + from.len() + 2 + to.len()) == from + ".."@ + to
            &&& t.subrange(t.len() - EXCLUSION@.len(), t.len() as int) == EXCLUSION@
        }),
{
    reveal(window_start);
    lemma_window_query_parts(
        kind,
        issue_label,
        pr_label,
        iso_text(d),
        iso_text((d + n_days) as i32),
    );
}

} // verus!
