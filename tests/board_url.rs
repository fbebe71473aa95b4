use youtrack_sync::{normalize_base_url, parse_board_url, resolve_location, SyncError};

#[test]
fn board_url_splits_into_base_and_ids() {
    let (base, agile, sprint) =
        parse_board_url("https://host/youtrack/agiles/65-52/66-155467?x=1").unwrap();
    assert_eq!(base, "https://host/youtrack/");
    assert_eq!(agile, "65-52");
    assert_eq!(sprint, "66-155467");
}

#[test]
fn board_url_drops_fragment_and_matches_agiles_in_any_case() {
    let (base, agile, sprint) =
        parse_board_url("https://host/a/b/AGILES/1-2/3-4#frag").unwrap();
    assert_eq!(base, "https://host/a/b/");
    assert_eq!(agile, "1-2");
    assert_eq!(sprint, "3-4");
}

#[test]
fn board_url_at_root() {
    let (base, agile, sprint) = parse_board_url("https://host/agiles/1/2").unwrap();
    assert_eq!(base, "https://host/");
    assert_eq!(agile, "1");
    assert_eq!(sprint, "2");
}

#[test]
fn board_url_without_agiles_is_rejected() {
    let r = parse_board_url("https://host/youtrack/boards/65-52/66-155467");
    assert_eq!(r.unwrap_err(), SyncError::MissingAgilesSegment);
    assert!(SyncError::MissingAgilesSegment.is_invalid_input());
}

#[test]
fn board_url_missing_ids_is_rejected() {
    assert_eq!(parse_board_url("https://host/yt/agiles").unwrap_err(), SyncError::MissingAgileId);
    assert_eq!(
        parse_board_url("https://host/yt/agiles/65-52").unwrap_err(),
        SyncError::MissingSprintId
    );
}

#[test]
fn unparsable_board_url_is_rejected() {
    assert_eq!(parse_board_url("not a url").unwrap_err(), SyncError::InvalidUrl);
}

#[test]
fn base_url_gets_trailing_slash() {
    assert_eq!(normalize_base_url("https://host/yt").unwrap(), "https://host/yt/");
    assert_eq!(normalize_base_url("https://host/yt/").unwrap(), "https://host/yt/");
    assert_eq!(normalize_base_url("::").unwrap_err(), SyncError::InvalidUrl);
}

#[test]
fn both_location_inputs_agree() {
    let from_board = resolve_location(
        Some("https://host/youtrack/agiles/65-52/66-155467?x=1".to_string()),
        None,
        None,
        None,
    )
    .unwrap();
    let explicit = resolve_location(
        None,
        Some("https://host/youtrack".to_string()),
        Some("65-52".to_string()),
        Some("66-155467".to_string()),
    )
    .unwrap();
    assert_eq!(from_board, explicit);
}

#[test]
fn missing_location_fields_are_rejected() {
    let a = Some("1".to_string());
    let s = Some("2".to_string());
    let b = Some("https://host/".to_string());
    assert_eq!(
        resolve_location(None, None, a.clone(), s.clone()).unwrap_err(),
        SyncError::MissingBaseUrl
    );
    assert_eq!(
        resolve_location(None, b.clone(), None, s.clone()).unwrap_err(),
        SyncError::MissingAgileIdField
    );
    assert_eq!(
        resolve_location(None, b, a, None).unwrap_err(),
        SyncError::MissingSprintIdField
    );
}

#[test]
fn board_path_split_on_given_segments() {
    let segs: Vec<String> = ["youtrack", "Agiles", "65-52", "66-155467"]
        .iter()
        .map(|s| s.to_string())
        .collect();
    let (path, agile, sprint) = youtrack_sync::split_board_path(&segs).unwrap();
    assert_eq!(path, "/youtrack/");
    assert_eq!(agile, "65-52");
    assert_eq!(sprint, "66-155467");
    let root: Vec<String> = vec!["agiles".to_string(), "1".to_string(), "2".to_string()];
    assert_eq!(youtrack_sync::split_board_path(&root).unwrap().0, "/");
    let none: Vec<String> = vec!["boards".to_string()];
    assert_eq!(
        youtrack_sync::split_board_path(&none).unwrap_err(),
        SyncError::MissingAgilesSegment
    );
    let short: Vec<String> = vec!["a".to_string(), "agiles".to_string(), "1".to_string()];
    assert_eq!(youtrack_sync::split_board_path(&short).unwrap_err(), SyncError::MissingSprintId);
}

#[test]
fn error_messages_name_the_failed_step() {
    assert_eq!(SyncError::MissingBaseUrl.message(), "missing youtrack_base_url");
    assert_eq!(SyncError::MissingAgileIdField.message(), "missing agile_id");
    assert_eq!(SyncError::MissingSprintIdField.message(), "missing sprint_id");
    assert_eq!(SyncError::MissingAgileId.message(), "missing agile id segment");
    let e = SyncError::IssueUrl("ABC-1".to_string());
    assert_eq!(e.message(), "failed to build issue URL for ABC-1");
    assert!(!e.is_invalid_input());
    assert_ne!(e, SyncError::IssueUrl("ABC-2".to_string()));
    assert_ne!(e, SyncError::RequestUrl);
}
