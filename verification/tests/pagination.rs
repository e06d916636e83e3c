use juniper_relay::keyed::KeyedNode;
use juniper_relay::{leq_zero, RelayConnection, RelayError};

fn five_nodes() -> Vec<KeyedNode> {
    vec![
        KeyedNode { key: '1', value: 10 },
        KeyedNode { key: '2', value: 20 },
        KeyedNode { key: '3', value: 30 },
        KeyedNode { key: '4', value: 40 },
        KeyedNode { key: '5', value: 50 },
    ]
}

fn cursors(conn: &RelayConnection<KeyedNode>) -> Vec<String> {
    conn.edges.iter().map(|e| e.cursor.clone()).collect()
}

#[test]
fn first_three_of_five() {
    let mut limit_seen = None;
    let conn = RelayConnection::<KeyedNode>::new(
        Some(3),
        None,
        None,
        None,
        |_after: Option<char>, _before: Option<char>, limit| -> Result<_, String> {
            limit_seen = limit;
            Ok(five_nodes())
        },
    )
    .expect("pagination should succeed");
    assert_eq!(limit_seen, Some(4));
    assert_eq!(cursors(&conn), vec!["1", "2", "3"]);
    assert_eq!(conn.edges[0].node.value, 10);
    assert!(conn.page_info.has_next_page);
    assert!(!conn.page_info.has_previous_page);
    assert_eq!(conn.page_info.start_cursor.as_deref(), Some("1"));
    assert_eq!(conn.page_info.end_cursor.as_deref(), Some("3"));
}

#[test]
fn first_and_last_narrows_from_trailing_end() {
    let conn = RelayConnection::<KeyedNode>::new(
        Some(3),
        None,
        Some(1),
        None,
        |_after: Option<char>, _before: Option<char>, _limit| -> Result<_, String> {
            Ok(five_nodes())
        },
    )
    .expect("pagination should succeed");
    assert_eq!(cursors(&conn), vec!["3"]);
    assert_eq!(conn.page_info.start_cursor.as_deref(), Some("3"));
    assert_eq!(conn.page_info.end_cursor.as_deref(), Some("3"));
    assert!(conn.page_info.has_next_page);
    assert!(conn.page_info.has_previous_page);
}

#[test]
fn last_only_takes_trailing_items() {
    let conn = RelayConnection::<KeyedNode>::new(
        None,
        None,
        Some(2),
        None,
        |_after: Option<char>, _before: Option<char>, limit| -> Result<_, String> {
            assert_eq!(limit, None);
            Ok(five_nodes())
        },
    )
    .expect("pagination should succeed");
    assert_eq!(cursors(&conn), vec!["4", "5"]);
    assert!(conn.page_info.has_previous_page);
    assert!(!conn.page_info.has_next_page);
    assert_eq!(conn.page_info.start_cursor.as_deref(), Some("4"));
    assert_eq!(conn.page_info.end_cursor.as_deref(), Some("5"));
}

#[test]
fn both_bounds_window() {
    let conn = RelayConnection::<KeyedNode>::new(
        Some(4),
        None,
        Some(2),
        None,
        |_after: Option<char>, _before: Option<char>, _limit| -> Result<_, String> {
            Ok(five_nodes())
        },
    )
    .expect("pagination should succeed");
    assert_eq!(cursors(&conn), vec!["3", "4"]);
    assert!(conn.page_info.has_next_page);
    assert!(conn.page_info.has_previous_page);
}

#[test]
fn first_exceeding_length_takes_everything() {
    let conn = RelayConnection::<KeyedNode>::new(
        Some(10),
        None,
        None,
        None,
        |_after: Option<char>, _before: Option<char>, _limit| -> Result<_, String> {
            Ok(five_nodes())
        },
    )
    .expect("pagination should succeed");
    assert_eq!(cursors(&conn), vec!["1", "2", "3", "4", "5"]);
    assert!(!conn.page_info.has_next_page);
    assert!(!conn.page_info.has_previous_page);
}

#[test]
fn first_zero_gives_empty_window_with_next_page() {
    let conn = RelayConnection::<KeyedNode>::new(
        Some(0),
        None,
        None,
        None,
        |_after: Option<char>, _before: Option<char>, _limit| -> Result<_, String> {
            Ok(five_nodes())
        },
    )
    .expect("pagination should succeed");
    assert!(conn.edges.is_empty());
    assert!(conn.page_info.has_next_page);
    assert!(!conn.page_info.has_previous_page);
    assert_eq!(conn.page_info.start_cursor, None);
    assert_eq!(conn.page_info.end_cursor, None);
}

#[test]
fn empty_candidates_give_empty_connection() {
    let conn = RelayConnection::<KeyedNode>::new(
        Some(2),
        None,
        Some(1),
        None,
        |_after: Option<char>, _before: Option<char>, _limit| -> Result<_, String> {
            Ok(Vec::new())
        },
    )
    .expect("pagination should succeed");
    assert!(conn.edges.is_empty());
    assert!(!conn.page_info.has_next_page);
    assert!(!conn.page_info.has_previous_page);
    assert_eq!(conn.page_info.start_cursor, None);
    assert_eq!(conn.page_info.end_cursor, None);
}

#[test]
fn empty_connection_constructor() {
    let conn = RelayConnection::<KeyedNode>::empty();
    assert!(conn.edges.is_empty());
    assert!(!conn.page_info.has_next_page);
    assert!(!conn.page_info.has_previous_page);
    assert_eq!(conn.page_info.start_cursor, None);
    assert_eq!(conn.page_info.end_cursor, None);
}

#[test]
fn negative_first_aborts_before_loader() {
    let mut called = false;
    let result = RelayConnection::<KeyedNode>::new(
        Some(-1),
        None,
        None,
        None,
        |_after: Option<char>, _before: Option<char>, _limit| -> Result<_, String> {
            called = true;
            Ok(five_nodes())
        },
    );
    match result {
        Err(RelayError::InvalidArgument(message)) => {
            assert_eq!(message, "pagination argument must be positive");
        }
        _ => panic!("expected the argument-validation error"),
    }
    assert!(!called);
}

#[test]
fn negative_last_aborts_before_loader() {
    let mut called = false;
    let result = RelayConnection::<KeyedNode>::new(
        None,
        None,
        Some(-3),
        None,
        |_after: Option<char>, _before: Option<char>, _limit| -> Result<_, String> {
            called = true;
            Ok(five_nodes())
        },
    );
    match result {
        Err(RelayError::InvalidArgument(message)) => {
            assert_eq!(message, "pagination argument must be positive");
        }
        _ => panic!("expected the argument-validation error"),
    }
    assert!(!called);
}

#[test]
fn malformed_after_aborts_before_loader() {
    let mut called = false;
    let result = RelayConnection::<KeyedNode>::new(
        Some(3),
        Some("not-one-char".to_string()),
        None,
        None,
        |_after: Option<char>, _before: Option<char>, _limit| -> Result<_, String> {
            called = true;
            Ok(five_nodes())
        },
    );
    match result {
        Err(RelayError::CursorDecode(message)) => {
            assert_eq!(message, "cursor must be a single character");
        }
        _ => panic!("expected the cursor-decode error"),
    }
    assert!(!called);
}

#[test]
fn malformed_before_aborts_before_loader() {
    let mut called = false;
    let result = RelayConnection::<KeyedNode>::new(
        None,
        None,
        None,
        Some(String::new()),
        |_after: Option<char>, _before: Option<char>, _limit| -> Result<_, String> {
            called = true;
            Ok(five_nodes())
        },
    );
    match result {
        Err(RelayError::CursorDecode(_)) => {}
        _ => panic!("expected the cursor-decode error"),
    }
    assert!(!called);
}

#[test]
fn decoded_cursors_reach_the_loader() {
    let mut seen = None;
    let conn = RelayConnection::<KeyedNode>::new(
        Some(2),
        Some("2".to_string()),
        None,
        Some("5".to_string()),
        |after: Option<char>, before: Option<char>, limit| -> Result<_, String> {
            seen = Some((after, before, limit));
            Ok(vec![
                KeyedNode { key: '3', value: 30 },
                KeyedNode { key: '4', value: 40 },
            ])
        },
    )
    .expect("pagination should succeed");
    assert_eq!(seen, Some((Some('2'), Some('5'), Some(3))));
    assert_eq!(cursors(&conn), vec!["3", "4"]);
    assert!(!conn.page_info.has_next_page);
}

#[test]
fn loader_failure_propagates_verbatim() {
    let result = RelayConnection::<KeyedNode>::new(
        Some(3),
        None,
        None,
        None,
        |_after: Option<char>, _before: Option<char>, _limit| -> Result<Vec<KeyedNode>, String> {
            Err("backing store unavailable".to_string())
        },
    );
    match result {
        Err(RelayError::Loader(message)) => {
            assert_eq!(message, "backing store unavailable");
        }
        _ => panic!("expected the loader's own error"),
    }
}

#[test]
fn loader_ignoring_the_hint_is_harmless() {
    // The loader returns fewer items than hinted; page info follows what
    // it actually returned.
    let conn = RelayConnection::<KeyedNode>::new(
        Some(3),
        None,
        None,
        None,
        |_after: Option<char>, _before: Option<char>, _limit| -> Result<_, String> {
            Ok(vec![KeyedNode { key: '1', value: 10 }])
        },
    )
    .expect("pagination should succeed");
    assert_eq!(cursors(&conn), vec!["1"]);
    assert!(!conn.page_info.has_next_page);
}

#[test]
fn from_candidates_windows_directly() {
    let conn =
        RelayConnection::<KeyedNode>::from_candidates::<String>(five_nodes(), Some(3), Some(1))
            .expect("windowing should succeed");
    assert_eq!(cursors(&conn), vec!["3"]);
    assert!(conn.page_info.has_next_page);
    assert!(conn.page_info.has_previous_page);
}

#[test]
fn leq_zero_accepts_non_negative() {
    assert_eq!(leq_zero(0), Ok(0));
    assert_eq!(leq_zero(41), Ok(41));
}

#[test]
fn leq_zero_rejects_negative() {
    assert_eq!(leq_zero(-1), Err("pagination argument must be positive"));
    assert_eq!(leq_zero(i64::MIN), Err("pagination argument must be positive"));
}
