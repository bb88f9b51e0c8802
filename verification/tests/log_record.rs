use chronos::error::ChronosError;
use chronos::log_record::{decode_log_fields, encode_log_fields, json_array_of_strings, LogColumns, LogFields};
use chronos::models::Timestamp;

fn sample_fields() -> LogFields {
    let now = chrono::Utc::now();
    LogFields {
        id: ulid::Ulid::new().0,
        timestamp: Timestamp { secs: now.timestamp(), nanos: now.timestamp_subsec_nanos() },
        source_frame_id: ulid::Ulid::new().0,
        key_entities: vec!["Entity1".to_string(), "Entity2".to_string()],
    }
}

#[test]
fn test_ulid_columns_match_crate() {
    let fields = sample_fields();
    let columns = encode_log_fields(&fields).unwrap();
    assert_eq!(columns.id, ulid::Ulid(fields.id).to_string());
    assert_eq!(columns.source_frame_id, ulid::Ulid(fields.source_frame_id).to_string());
    let zero = LogFields { id: 0, ..sample_fields() };
    assert_eq!(encode_log_fields(&zero).unwrap().id, "00000000000000000000000000");
    // Lower case reads back as the same ULID.
    let lower = LogColumns { id: columns.id.to_lowercase(), ..columns.clone() };
    assert_eq!(decode_log_fields(&lower).unwrap().id, fields.id);
    let bad_char = LogColumns { id: "0000000000000000000000000U".to_string(), ..columns };
    assert_eq!(
        decode_log_fields(&bad_char),
        Err(ChronosError::Database("Invalid ID: invalid character".to_string()))
    );
}

#[test]
fn test_json_array_matches_serde() {
    for items in [vec![], vec!["Rust".to_string()], vec!["a\"b".to_string(), "c\nd".to_string(), "".to_string()]] {
        let text = json_array_of_strings(&items);
        assert_eq!(text, serde_json::to_string(&items).unwrap());
        let fields = LogFields { key_entities: items.clone(), ..sample_fields() };
        let columns = encode_log_fields(&fields).unwrap();
        assert_eq!(columns.key_entities, text);
        assert_eq!(decode_log_fields(&columns).unwrap().key_entities, items);
    }
}

#[test]
fn test_log_fields_round_trip() {
    let fields = sample_fields();
    let columns = encode_log_fields(&fields).unwrap();
    assert_eq!(columns.key_entities, "[\"Entity1\",\"Entity2\"]");
    assert_eq!(decode_log_fields(&columns), Ok(fields));
}

#[test]
fn test_log_timestamp_text_is_rfc3339() {
    let fields = LogFields { timestamp: Timestamp { secs: 1698400800, nanos: 0 }, ..sample_fields() };
    let columns = encode_log_fields(&fields).unwrap();
    assert_eq!(columns.timestamp, "2023-10-27T10:00:00+00:00");
    let fields = LogFields { timestamp: Timestamp { secs: 1698400800, nanos: 123_000_000 }, ..sample_fields() };
    assert_eq!(encode_log_fields(&fields).unwrap().timestamp, "2023-10-27T10:00:00.123+00:00");
}

#[test]
fn test_unrepresentable_timestamp_is_refused() {
    let fields = LogFields { timestamp: Timestamp { secs: i64::MAX, nanos: 0 }, ..sample_fields() };
    assert_eq!(
        encode_log_fields(&fields),
        Err(ChronosError::Database("Invalid timestamp: out of range".to_string()))
    );
}

fn columns(id: &str, ts: &str, src: &str, ke: &str) -> LogColumns {
    LogColumns {
        id: id.to_string(),
        timestamp: ts.to_string(),
        source_frame_id: src.to_string(),
        key_entities: ke.to_string(),
    }
}

fn database_message(r: Result<LogFields, ChronosError>) -> String {
    match r {
        Err(ChronosError::Database(m)) => m,
        other => panic!("expected a database error, got {:?}", other),
    }
}

#[test]
fn test_malformed_columns_are_refused() {
    let good = "01GD6Q3B86Y4G1C6EM86YXAK8F";
    assert_eq!(
        database_message(decode_log_fields(&columns("not-a-ulid", "2023-01-01T00:00:00Z", good, "[]"))),
        "Invalid ID: invalid length"
    );
    assert_eq!(
        database_message(decode_log_fields(&columns(good, "invalid-date", good, "[]"))),
        format!("Invalid timestamp: {}", chrono::DateTime::parse_from_rfc3339("invalid-date").unwrap_err())
    );
    assert_eq!(
        database_message(decode_log_fields(&columns(good, "2023-01-01T00:00:00Z", "not-a-ulid", "[]"))),
        "Invalid source_frame_id: invalid length"
    );
    assert_eq!(
        database_message(decode_log_fields(&columns(good, "2023-01-01T00:00:00Z", good, "invalid-json"))),
        format!(
            "Invalid key_entities: {}",
            serde_json::from_str::<Vec<String>>("invalid-json").unwrap_err()
        )
    );
    let ok = decode_log_fields(&columns(good, "2023-01-01T00:00:00Z", good, "[]")).unwrap();
    assert_eq!(ok.timestamp, Timestamp { secs: 1672531200, nanos: 0 });
    assert!(ok.key_entities.is_empty());
}

#[test]
fn test_readable_columns_are_read_back() {
    // Not the form the library writes, but every column reads.
    let good = "01GD6Q3B86Y4G1C6EM86YXAK8F";
    let fields = decode_log_fields(&columns(
        &good.to_lowercase(),
        "2023-01-01T01:00:00+01:00",
        good,
        " [ \"a\" , \"b\" ] ",
    ))
    .unwrap();
    assert_eq!(fields.id, ulid::Ulid::from_string(good).unwrap().0);
    assert_eq!(fields.timestamp, Timestamp { secs: 1672531200, nanos: 0 });
    assert_eq!(fields.key_entities, vec!["a".to_string(), "b".to_string()]);
}
