use chrono::{Datelike, TimeZone};
use chronos::error::ChronosError;
use chronos::handlers::{
    checked_limit, choose_date, chronos_data_dir, db_url_in, default_data_dir, format_log_row, format_query_report,
    format_status_report, handle_pause, handle_resume, join_path, parse_date, plan_query,
    resolve_db_url, LogSummary, QueryPlan,
};
use chronos::models::Timestamp;
use chronos::text::truncate;

fn to_chrono(t: Timestamp) -> chrono::DateTime<chrono::Utc> {
    chrono::DateTime::from_timestamp(t.secs, t.nanos).unwrap()
}

#[test]
fn test_parse_date_rfc3339() {
    let s = "2023-10-27T10:00:00Z";
    let res = parse_date(s);
    assert!(res.is_ok());
    assert_eq!(to_chrono(res.unwrap()).year(), 2023);
}

#[test]
fn test_parse_date_simple() {
    let s = "2023-10-27";
    let res = parse_date(s);
    assert!(res.is_ok());
    let dt = to_chrono(res.unwrap());
    assert_eq!(dt.year(), 2023);
    assert_eq!(dt.month(), 10);
    assert_eq!(dt.day(), 27);
}

#[test]
fn test_parse_date_invalid() {
    let s = "invalid-date";
    let res = parse_date(s);
    assert!(res.is_err());
}

#[test]
fn test_parse_date_invalid_message() {
    assert_eq!(
        parse_date("31/12/2023"),
        Err(ChronosError::InvalidInput(
            "Invalid date format: 31/12/2023. Use YYYY-MM-DD or RFC3339.".to_string()
        ))
    );
}

#[test]
fn test_parse_date_midnight_utc_and_offsets() {
    let midnight = parse_date("2023-10-27").unwrap();
    assert_eq!(midnight, Timestamp { secs: 1698364800, nanos: 0 });
    let shifted = parse_date("2023-10-27T02:00:00+02:00").unwrap();
    assert_eq!(shifted, midnight);
}

#[test]
fn test_choose_date_prefers_rfc3339() {
    let a = Timestamp { secs: 1, nanos: 0 };
    let b = Timestamp { secs: 2, nanos: 0 };
    assert_eq!(choose_date("x", Some(a), Some(b)), Ok(a));
    assert_eq!(choose_date("x", None, Some(b)), Ok(b));
    assert!(matches!(choose_date("x", None, None), Err(ChronosError::InvalidInput(_))));
}

#[test]
fn test_truncate() {
    assert_eq!(truncate("hello", 10), "hello");
    assert_eq!(truncate("hello world", 5), "he...");
    assert_eq!(truncate("exactly", 7), "exactly");
    // UTF-8 safe truncation: 🦀 is 4 bytes.
    // max 7 -> end 4. boundary at 4. "🦀..."
    assert_eq!(truncate("🦀🦀🦀", 7), "🦀...");
    // max 6 -> end 3. boundary at 0. "..."
    assert_eq!(truncate("🦀🦀🦀", 6), "...");
}

#[test]
fn test_truncate_small_limits() {
    assert_eq!(truncate("abcdef", 2), "...");
    assert_eq!(truncate("", 0), "");
    assert_eq!(truncate("ab", 0), "...");
    assert_eq!(truncate("héllo wörld", 8), "héll...");
}

#[test]
fn test_resolve_db_url() {
    let url = resolve_db_url(None).unwrap();
    assert!(url.starts_with("sqlite://"));
    assert!(url.contains("chronos.db"));
}

#[test]
fn test_default_database_lives_in_data_dir() {
    let dir = default_data_dir().unwrap();
    assert!(dir.ends_with("/chronos"));
    assert_eq!(resolve_db_url(None).unwrap(), format!("sqlite://{dir}/chronos.db"));
}

#[test]
fn test_resolve_db_url_override_wins() {
    assert_eq!(resolve_db_url(Some("sqlite::memory:".to_string())).unwrap(), "sqlite::memory:");
}

#[test]
fn test_db_paths() {
    assert_eq!(join_path("/home/a/.local/share", "chronos"), "/home/a/.local/share/chronos");
    assert_eq!(join_path("/data/", "chronos"), "/data/chronos");
    assert_eq!(join_path("", "chronos"), "chronos");
    let dir = chronos_data_dir("/home/a/.local/share");
    assert_eq!(db_url_in(&dir), "sqlite:///home/a/.local/share/chronos/chronos.db");
}

#[test]
fn test_pause_and_resume_are_not_available() {
    assert_eq!(
        handle_pause(),
        Err(ChronosError::Unsupported(
            "Pause command not yet implemented in v0.1. Full IPC coming in v0.2.".to_string()
        ))
    );
    assert!(matches!(handle_resume(), Err(ChronosError::Unsupported(m)) if m.contains("Resume")));
}

#[test]
fn test_limit_beyond_i64_is_refused() {
    let too_large_limit = i64::MAX as u64 + 1;
    assert!(matches!(checked_limit(too_large_limit), Err(ChronosError::InvalidInput(_))));
    assert_eq!(
        checked_limit(too_large_limit),
        Err(ChronosError::InvalidInput(
            "Limit 9223372036854775808 is too large (max: 9223372036854775807)".to_string()
        ))
    );
    assert_eq!(checked_limit(10), Ok(10));
    assert_eq!(checked_limit(i64::MAX as u64), Ok(i64::MAX));
}

#[test]
fn test_plan_query_paths() {
    let now = Timestamp { secs: 1_700_000_000, nanos: 5 };
    assert_eq!(plan_query(None, None, 10, now), Ok(QueryPlan::Recent { limit: 10 }));

    let plan = plan_query(Some("2023-01-01".to_string()), Some("2023-12-31".to_string()), 10, now)
        .unwrap();
    let expected_from = chrono::Utc.with_ymd_and_hms(2023, 1, 1, 0, 0, 0).unwrap().timestamp();
    let expected_to = chrono::Utc.with_ymd_and_hms(2023, 12, 31, 0, 0, 0).unwrap().timestamp();
    assert_eq!(
        plan,
        QueryPlan::Range {
            from: Timestamp { secs: expected_from, nanos: 0 },
            to: Timestamp { secs: expected_to, nanos: 0 },
            limit: 10
        }
    );

    // Missing ends default to the epoch and to now.
    assert_eq!(
        plan_query(None, Some("2023-12-31".to_string()), 3, now),
        Ok(QueryPlan::Range {
            from: Timestamp { secs: 0, nanos: 0 },
            to: Timestamp { secs: expected_to, nanos: 0 },
            limit: 3
        })
    );
    assert_eq!(
        plan_query(Some("2023-01-01".to_string()), None, 3, now),
        Ok(QueryPlan::Range { from: Timestamp { secs: expected_from, nanos: 0 }, to: now, limit: 3 })
    );

    // The start date is checked first.
    assert_eq!(
        plan_query(Some("bad-from".to_string()), Some("bad-to".to_string()), 3, now),
        Err(ChronosError::InvalidInput(
            "Invalid date format: bad-from. Use YYYY-MM-DD or RFC3339.".to_string()
        ))
    );
}

#[test]
fn test_query_report_empty() {
    assert_eq!(format_query_report(&vec![]), vec!["No logs found.".to_string()]);
}

#[test]
fn test_query_report_table() {
    let logs = vec![
        LogSummary {
            timestamp: "2023-10-27T10:00:00+00:00".to_string(),
            active_application: Some("TestApp".to_string()),
            description: "Test log".to_string(),
        },
        LogSummary {
            timestamp: "2023-10-27T10:00:01+00:00".to_string(),
            active_application: None,
            description: "Other".to_string(),
        },
        LogSummary {
            timestamp: "2023-10-27T10:00:02+00:00".to_string(),
            active_application: Some("A Very Long Application Name".to_string()),
            description: "Long".to_string(),
        },
    ];
    let lines = format_query_report(&logs);
    assert_eq!(lines.len(), 5);
    assert_eq!(lines[0], format!("{:<25} | {:<15} | Description", "Timestamp", "Application"));
    assert_eq!(lines[1], "-".repeat(80));
    assert_eq!(lines[2], format!("{:<25} | {:<15} | {}", "2023-10-27T10:00:00+00:00", "TestApp", "Test log"));
    assert_eq!(lines[3], format!("{:<25} | {:<15} | {}", "2023-10-27T10:00:01+00:00", "Unknown", "Other"));
    assert_eq!(lines[4], format!("{:<25} | {:<15} | {}", "2023-10-27T10:00:02+00:00", "A Very Long ...", "Long"));
    assert_eq!(format_log_row(&logs[0]), lines[2]);
}

#[test]
fn test_status_report() {
    let lines = format_status_report("sqlite::memory:", 42, "0.1.0");
    assert_eq!(
        lines,
        vec![
            "Chronos System Status:".to_string(),
            "  Database: sqlite::memory:".to_string(),
            "  Total Semantic Logs: 42".to_string(),
            "  Version: v0.1.0".to_string(),
        ]
    );
    assert_eq!(format_status_report("u", -7, "v")[2], "  Total Semantic Logs: -7");
    assert_eq!(format_status_report("u", i64::MIN, "v")[2], format!("  Total Semantic Logs: {}", i64::MIN));
}
