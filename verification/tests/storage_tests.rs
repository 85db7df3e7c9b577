use isekai::storage::{
    coerce_column, create_storage, get_data, get_policy, insert_data, is_valid_sqlid,
    make_table_name, open_db, policy_from_rows, ColumnType, DbMode, FieldDef, StorageError,
    StoredCell, TypedColumn,
};
use rusqlite::types::Value;

fn memdb() -> rusqlite::Connection {
    open_db(":memory:", DbMode::ReadWriteCreate).unwrap()
}

fn field(name: &str, ty: ColumnType) -> FieldDef {
    FieldDef { name: name.to_string(), ty }
}

fn table_count(conn: &rusqlite::Connection) -> i64 {
    conn.query_row("SELECT COUNT(*) FROM sqlite_master WHERE type='table'", [], |r| r.get(0))
        .unwrap()
}

#[test]
fn identifier_guard() {
    assert!(is_valid_sqlid("age"));
    assert!(is_valid_sqlid("A1_b2"));
    assert!(!is_valid_sqlid(""));
    assert!(!is_valid_sqlid("1abc"));
    assert!(!is_valid_sqlid("x); DROP TABLE"));
    assert!(!is_valid_sqlid("a-b"));
    assert!(!is_valid_sqlid("_x"));
}

#[test]
fn injection_fails_before_any_sql() {
    let conn = memdb();
    let before = table_count(&conn);
    let fields = vec![field("x); DROP TABLE", ColumnType::Float32)];
    let r = create_storage(&conn, "test", &fields, None, 1111);
    match r {
        Err(StorageError::InvalidFieldName(n)) => assert_eq!(n, "x); DROP TABLE"),
        other => panic!("unexpected: {:?}", other),
    }
    assert_eq!(table_count(&conn), before);
}

#[test]
fn bad_subject_fails_before_any_sql() {
    let conn = memdb();
    let before = table_count(&conn);
    let fields = vec![field("x", ColumnType::Float32)];
    let r = create_storage(&conn, "bad subject", &fields, None, 1111);
    assert!(matches!(r, Err(StorageError::InvalidTableName(_))));
    assert_eq!(table_count(&conn), before);
}

#[test]
fn write_then_read_round_trip() {
    let conn = memdb();
    let fields = vec![field("x", ColumnType::Float32), field("y", ColumnType::Utf8)];
    let target = create_storage(&conn, "test", &fields, None, 1234).unwrap();
    assert!(!target.is_empty());
    assert!(target.chars().all(|c| c.is_ascii_digit()));
    assert_eq!(target, "1234");

    let rows = vec![
        vec![Value::Real(1.5), Value::Text("a".to_string())],
        vec![Value::Real(2.5), Value::Text("b".to_string())],
    ];
    insert_data(&conn, "test", &target, &fields, &rows).unwrap();

    match get_data(&conn, "test", &target, "x").unwrap() {
        TypedColumn::Float32(col) => {
            let got: Vec<f32> = col
                .iter()
                .map(|v| match v {
                    Some(Value::Real(f)) => *f as f32,
                    Some(Value::Integer(i)) => *i as f32,
                    other => panic!("unexpected cell: {:?}", other),
                })
                .collect();
            assert_eq!(got, vec![1.5, 2.5]);
        },
        _ => panic!("expected a float column"),
    }

    match get_data(&conn, "test", &target, "y").unwrap() {
        TypedColumn::Utf8(col) => {
            let got: Vec<String> = col.iter().map(|v| v.clone().unwrap()).collect();
            assert_eq!(got, vec!["a".to_string(), "b".to_string()]);
        },
        _ => panic!("expected a text column"),
    }
}

#[test]
fn floats_dominate_text_in_mixed_columns() {
    let cells = vec![
        StoredCell::Real(Value::Real(30.0)),
        StoredCell::Text("n/a".to_string()),
        StoredCell::Real(Value::Real(31.0)),
    ];
    match coerce_column(cells) {
        TypedColumn::Float32(col) => {
            assert_eq!(col.len(), 3);
            assert!(matches!(col[0], Some(Value::Real(f)) if f == 30.0));
            assert!(col[1].is_none());
            assert!(matches!(col[2], Some(Value::Real(f)) if f == 31.0));
        },
        _ => panic!("expected a float column"),
    }
}

#[test]
fn text_dominates_binary() {
    let cells = vec![
        StoredCell::Blob(vec![1, 2]),
        StoredCell::Text("hi".to_string()),
    ];
    match coerce_column(cells) {
        TypedColumn::Utf8(col) => {
            assert!(col[0].is_none());
            assert_eq!(col[1].as_deref(), Some("hi"));
        },
        _ => panic!("expected a text column"),
    }
}

#[test]
fn all_blobs_stay_binary() {
    let cells = vec![StoredCell::Blob(vec![1, 2]), StoredCell::Blob(vec![3])];
    match coerce_column(cells) {
        TypedColumn::Binary(col) => {
            assert_eq!(col[0].as_deref(), Some(&[1u8, 2][..]));
            assert_eq!(col[1].as_deref(), Some(&[3u8][..]));
        },
        _ => panic!("expected a binary column"),
    }
}

#[test]
fn unsupported_column_type_is_refused() {
    let conn = memdb();
    let fields = vec![field("x", ColumnType::Other)];
    let target = create_storage(&conn, "test", &fields, None, 99).unwrap();
    let rows = vec![vec![Value::Null]];
    let r = insert_data(&conn, "test", &target, &fields, &rows);
    match r {
        Err(StorageError::UnsupportedColumnType(n)) => assert_eq!(n, "x"),
        other => panic!("unexpected: {:?}", other.is_ok()),
    }
}

#[test]
fn stored_policy_is_rewritten_to_requested_column() {
    let conn = memdb();
    conn.execute(
        "CREATE TABLE policy (table_name TEXT PRIMARY KEY, json TEXT)",
        [],
    )
    .unwrap();
    let fields = vec![field("x", ColumnType::Float32)];
    let stored = "{\"rules\":{\"r1\":{\"column_name\":\"old_one\",\"requires\":[\"m\"],\"rejects\":[],\"table_verifier\":null},\"r2\":{\"column_name\":\"other\",\"requires\":[],\"rejects\":[\"z\"],\"table_verifier\":\"tv\"}},\"func_policy\":{\"m\":{\"func\":\"mean\",\"reject\":\"\",\"require\":\">100\"}},\"default_table_verifier\":\"\",\"table_verifiers\":{}}".to_string();
    let target = create_storage(&conn, "test", &fields, Some(&stored), 777).unwrap();

    let json = get_policy(&conn, "test", &target, "x").unwrap();
    let parsed: serde_json::Value = serde_json::from_str(&json).unwrap();
    let rules = parsed["rules"].as_object().unwrap();
    assert_eq!(rules.len(), 2);
    for (_, rule) in rules {
        assert_eq!(rule["column_name"].as_str().unwrap(), "x");
    }
    // Everything else is preserved.
    assert_eq!(rules["r1"]["requires"][0].as_str().unwrap(), "m");
    assert_eq!(rules["r2"]["rejects"][0].as_str().unwrap(), "z");
    assert_eq!(rules["r2"]["table_verifier"].as_str().unwrap(), "tv");
    assert_eq!(parsed["func_policy"]["m"]["func"].as_str().unwrap(), "mean");
}

#[test]
fn missing_policy_is_reported() {
    let conn = memdb();
    conn.execute(
        "CREATE TABLE policy (table_name TEXT PRIMARY KEY, json TEXT)",
        [],
    )
    .unwrap();
    let r = get_policy(&conn, "test", "123", "x");
    assert!(matches!(r, Err(StorageError::NoPolicy(_))));
}

#[test]
fn table_names_compose() {
    assert_eq!(make_table_name("test", "1234"), "test_1234");
}

#[test]
fn policy_rows_decide_the_outcome() {
    // No row stored: the no-policy error names the table.
    let r = policy_from_rows(&vec![], "test_1".to_string(), "x");
    match r {
        Err(StorageError::NoPolicy(n)) => assert_eq!(n, "test_1"),
        other => panic!("unexpected: {:?}", other),
    }

    // An unreadable last row is the malformed error.
    let r = policy_from_rows(&vec!["not json".to_string()], "test_2".to_string(), "x");
    assert!(matches!(r, Err(StorageError::MalformedPolicy(_))));

    // The last stored row wins and is rewritten to the requested column.
    let rows = vec![
        "not json".to_string(),
        "{\"rules\":{\"r\":{\"column_name\":\"old\",\"requires\":[],\"rejects\":[]}}}".to_string(),
    ];
    let json = policy_from_rows(&rows, "test_3".to_string(), "x").unwrap();
    let v: serde_json::Value = serde_json::from_str(&json).unwrap();
    assert_eq!(v["rules"]["r"]["column_name"], "x");
}
