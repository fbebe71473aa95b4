use youtrack_sync::{
    default_open_value, default_state_field, issue_description, issue_title_prefix, issue_url,
    plan_task, CustomField, FieldValue, Issue, IssuePager, SyncError, SyncSession, SyncSummary,
    YouTrackOpenSyncResponse, ISSUE_FIELDS, PAGE_SIZE,
};

fn issue(id: &str, summary: &str, description: Option<&str>, state: &str) -> Issue {
    Issue {
        id_readable: id.to_string(),
        summary: summary.to_string(),
        description: description.map(|d| d.to_string()),
        custom_fields: vec![CustomField {
            name: "State".to_string(),
            value: FieldValue::Named(state.to_string()),
        }],
    }
}

fn page(start: usize, n: usize) -> Vec<Issue> {
    (start..start + n)
        .map(|k| issue(&format!("P-{k}"), "s", None, "Open"))
        .collect()
}

/// Runs a session against an in-memory store of task titles.
fn run(store: &mut Vec<String>, issues: Vec<Issue>, dry_run: bool) -> SyncSummary {
    let mut session =
        SyncSession::new("https://host/yt", issues, "State", "Open", dry_run).unwrap();
    while let Some(prefix) = session.current_prefix() {
        let found = store.iter().any(|t| t.starts_with(&prefix));
        if let Some(draft) = session.on_lookup(found).unwrap() {
            store.push(draft.title);
        }
    }
    session.into_summary()
}

fn walk(sizes: &[usize]) -> (usize, usize) {
    let mut pager = IssuePager::new("https://host/yt/", "65-52", "66-1").unwrap();
    let mut requests = 0;
    let mut offset = 0;
    while let Some(req) = pager.next_request() {
        assert_eq!(req.url, "https://host/yt/api/agiles/65-52/sprints/66-1/issues");
        assert_eq!(req.skip, offset);
        assert_eq!(req.top, PAGE_SIZE);
        let n = sizes.get(requests).copied().unwrap_or(0);
        requests += 1;
        pager.receive_page(page(offset, n));
        offset += n;
    }
    (requests, pager.into_issues().len())
}

#[test]
fn pagination_stops_after_short_page() {
    assert_eq!(walk(&[100, 100, 37]), (3, 237));
}

#[test]
fn pagination_full_last_page_needs_empty_request() {
    assert_eq!(walk(&[100, 100, 100]), (4, 300));
}

#[test]
fn pagination_empty_sprint() {
    assert_eq!(walk(&[]), (1, 0));
}

#[test]
fn pager_keeps_issue_order() {
    let mut pager = IssuePager::new("https://host/yt/", "1", "2").unwrap();
    pager.receive_page(page(0, 100));
    pager.receive_page(page(100, 3));
    assert!(pager.next_request().is_none());
    let ids: Vec<String> = pager.into_issues().into_iter().map(|i| i.id_readable).collect();
    assert_eq!(ids[0], "P-0");
    assert_eq!(ids[99], "P-99");
    assert_eq!(ids[102], "P-102");
    assert_eq!(ISSUE_FIELDS, "idReadable,summary,description,customFields(name,value(name))");
}

#[test]
fn title_and_description_are_built_from_issue() {
    let i = issue("ABC-1", "Fix bug", Some("details"), "Open");
    let d = plan_task("https://host/yt/", &i).unwrap();
    assert_eq!(d.title, "[ABC-1] Fix bug");
    assert_eq!(d.description, "YouTrack: https://host/yt/issue/ABC-1\n\ndetails");
    assert!(d.description.starts_with("YouTrack: https://host/yt/issue/ABC-1\n"));
}

#[test]
fn blank_description_is_left_out() {
    let i = issue("ABC-2", "Other", Some("  \n "), "Open");
    let d = plan_task("https://host/yt/", &i).unwrap();
    assert_eq!(d.description, "YouTrack: https://host/yt/issue/ABC-2\n");
    assert_eq!(issue_description("u", &None), "YouTrack: u\n");
}

#[test]
fn issue_url_and_prefix() {
    assert_eq!(issue_url("https://host/yt/", "ABC-1").unwrap(), "https://host/yt/issue/ABC-1");
    assert_eq!(issue_title_prefix("ABC-1"), "[ABC-1] ");
    assert_eq!(issue_url("no base", "ABC-1").unwrap_err(), SyncError::IssueUrl("ABC-1".to_string()));
}

#[test]
fn defaults() {
    assert_eq!(default_state_field(), "State");
    assert_eq!(default_open_value(), "Open");
}

#[test]
fn end_to_end_open_and_closed_issue() {
    let mut store: Vec<String> = Vec::new();
    let issues = vec![
        issue("ABC-1", "Fix bug", None, "Open"),
        issue("ABC-2", "Done thing", None, "Closed"),
    ];
    let s = run(&mut store, issues, false);
    assert_eq!(s.open_issues_total, 1);
    assert_eq!(s.created, 1);
    assert_eq!(s.skipped_existing, 0);
    assert!(!s.dry_run);
    assert_eq!(s.created_titles, vec!["[ABC-1] Fix bug".to_string()]);
    assert_eq!(store, vec!["[ABC-1] Fix bug".to_string()]);
}

#[test]
fn second_run_skips_everything() {
    let mut store: Vec<String> = vec!["[X-9] older".to_string()];
    let make = || {
        vec![
            issue("X-1", "one", None, "Open"),
            issue("X-2", "two", Some("d"), "open"),
            issue("X-9", "nine", None, "Open"),
        ]
    };
    let first = run(&mut store, make(), false);
    assert_eq!(first.created, 2);
    assert_eq!(first.skipped_existing, 1);
    let second = run(&mut store, make(), false);
    assert_eq!(second.created, 0);
    assert_eq!(second.skipped_existing, second.open_issues_total);
    assert_eq!(second.open_issues_total, 3);
    assert!(second.created_titles.is_empty());
    assert_eq!(store.len(), 3);
}

#[test]
fn dry_run_leaves_store_untouched() {
    let mut store: Vec<String> = vec!["[D-2] exists".to_string()];
    let issues = vec![
        issue("D-1", "a", None, "Open"),
        issue("D-2", "b", None, "Open"),
        issue("D-3", "c", None, "Open"),
    ];
    let s = run(&mut store, issues, true);
    assert!(s.dry_run);
    assert_eq!(s.created, 2);
    assert_eq!(s.skipped_existing, 1);
    assert_eq!(s.created_titles, vec!["[D-1] a".to_string(), "[D-3] c".to_string()]);
    assert_eq!(store, vec!["[D-2] exists".to_string()]);
}

#[test]
fn invalid_base_url_stops_the_run() {
    let r = SyncSession::new("not a url", vec![], "State", "Open", false);
    assert_eq!(r.err(), Some(SyncError::InvalidUrl));
}

#[test]
fn response_copies_summary() {
    let mut store: Vec<String> = Vec::new();
    let s = run(&mut store, vec![issue("R-1", "r", None, "Open")], true);
    let r = YouTrackOpenSyncResponse::from_summary(s);
    assert_eq!(r.open_issues_total, 1);
    assert_eq!(r.created, 1);
    assert_eq!(r.created_titles, vec!["[R-1] r".to_string()]);
    assert!(r.dry_run);
}

#[test]
fn driver_against_titles_matches_run() {
    let mut store: Vec<String> = vec!["[T-2] old".to_string()];
    let issues = vec![
        issue("T-1", "a", None, "Open"),
        issue("T-2", "b", None, "Open"),
        issue("T-3", "c", None, "Closed"),
    ];
    let session = SyncSession::new("https://host/yt", issues, "State", "Open", false).unwrap();
    let s = youtrack_sync::laws::run_against_titles(session, &mut store).unwrap();
    assert_eq!(s.open_issues_total, 2);
    assert_eq!(s.created, 1);
    assert_eq!(s.skipped_existing, 1);
    assert_eq!(s.created_titles, vec!["[T-1] a".to_string()]);
    assert_eq!(store, vec!["[T-2] old".to_string(), "[T-1] a".to_string()]);
    assert!(youtrack_sync::laws::starts_with("[T-1] a", "[T-1] "));
    assert!(!youtrack_sync::laws::starts_with("[T-1", "[T-1] "));
}

#[test]
fn pager_normalizes_base() {
    let pager = IssuePager::new("https://host/yt", "1", "2").unwrap();
    let req = pager.next_request().unwrap();
    assert_eq!(req.url, "https://host/yt/api/agiles/1/sprints/2/issues");
    assert_eq!(IssuePager::new("nope", "1", "2").err().map(|e| e.message()), Some("invalid tracker URL".to_string()));
}
