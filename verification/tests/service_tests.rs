use isekai::config::CmdOptions;
use isekai::service::{route_ticket, DataRoute, GrpcStatus, PutSession};
use isekai::storage::{get_data, open_db, ColumnType, DbMode, FieldDef, TypedColumn};
use rusqlite::types::Value;

fn opts(csv: Option<&str>, edinet: Option<&str>) -> CmdOptions {
    CmdOptions {
        no_tls: true,
        authorized_subject: None,
        csv_file: csv.map(|s| s.to_string()),
        edinet_db: edinet.map(|s| s.to_string()),
        parquet_path: "./parquet".to_string(),
        storage_db: "./storage.db".to_string(),
        policy_db: "./policy.db".to_string(),
        cert: "./certs/server.crt".to_string(),
        key: "./certs/server.key".to_string(),
        port: 50053,
        use_test_challenge: true,
        server_ld: None,
    }
}

#[test]
fn malformed_ticket_is_invalid_argument() {
    let o = opts(Some("data.csv"), None);
    let r = route_ticket(&o, "not a ticket");
    assert!(matches!(r, Err(GrpcStatus::InvalidArgument(_))));
}

#[test]
fn system_target_routes_to_the_configured_provider() {
    let csv = opts(Some("data.csv"), None);
    match route_ticket(&csv, r#"{"target":"system","column_name":"age"}"#).unwrap() {
        DataRoute::CsvProvider(col) => assert_eq!(col, "age"),
        other => panic!("unexpected route: {:?}", other),
    }

    let edinet = opts(None, Some("edinet.db"));
    match route_ticket(&edinet, r#"{"target":"system","column_name":"a/b/c"}"#).unwrap() {
        DataRoute::EdinetProvider(col) => assert_eq!(col, "a/b/c"),
        other => panic!("unexpected route: {:?}", other),
    }

    let none = opts(None, None);
    let r = route_ticket(&none, r#"{"target":"system","column_name":"age"}"#);
    assert!(matches!(r, Err(GrpcStatus::Internal(_))));
}

#[test]
fn other_targets_route_to_the_store() {
    let o = opts(Some("data.csv"), None);
    match route_ticket(&o, r#"{"target":"1234","column_name":"x"}"#).unwrap() {
        DataRoute::Stored(target, col) => {
            assert_eq!(target, "1234");
            assert_eq!(col, "x");
        },
        other => panic!("unexpected route: {:?}", other),
    }
}

#[test]
fn put_session_creates_inserts_and_finishes() {
    let conn = open_db(":memory:", DbMode::ReadWriteCreate).unwrap();
    conn.execute("CREATE TABLE policy (table_name TEXT PRIMARY KEY, json TEXT)", [])
        .unwrap();

    let mut session = PutSession::new("test".to_string());
    session.note_metadata(Some("{\"rules\":{}}".to_string()));

    let fields = vec![
        FieldDef { name: "x".to_string(), ty: ColumnType::Float32 },
        FieldDef { name: "y".to_string(), ty: ColumnType::Utf8 },
    ];
    session.on_schema(&conn, &fields, 4242).unwrap();

    let rows = vec![
        vec![Value::Real(1.5), Value::Text("a".to_string())],
        vec![Value::Real(2.5), Value::Text("b".to_string())],
    ];
    session.on_batch(&conn, &fields, &rows).unwrap();

    let target = session.finish().unwrap();
    assert_eq!(target, "4242");
    assert!(target.chars().all(|c| c.is_ascii_digit()));

    // The policy row was stored beside the table.
    let stored: String = conn
        .query_row("SELECT json FROM policy WHERE table_name = 'test_4242'", [], |r| r.get(0))
        .unwrap();
    assert_eq!(stored, "{\"rules\":{}}");

    // And a follow-up read sees the written column.
    match get_data(&conn, "test", &target, "x").unwrap() {
        TypedColumn::Float32(col) => assert_eq!(col.len(), 2),
        _ => panic!("expected a float column"),
    }
}

#[test]
fn batch_before_schema_is_internal() {
    let conn = open_db(":memory:", DbMode::ReadWriteCreate).unwrap();
    let session = PutSession::new("test".to_string());
    let fields = vec![FieldDef { name: "x".to_string(), ty: ColumnType::Float32 }];
    let rows = vec![vec![Value::Real(1.0)]];
    let r = session.on_batch(&conn, &fields, &rows);
    assert!(matches!(r, Err(GrpcStatus::Internal(_))));
    let r = session.finish();
    assert!(matches!(r, Err(GrpcStatus::Internal(_))));
}

#[test]
fn injection_in_put_schema_is_internal_and_writes_nothing() {
    let conn = open_db(":memory:", DbMode::ReadWriteCreate).unwrap();
    let before: i64 = conn
        .query_row("SELECT COUNT(*) FROM sqlite_master WHERE type='table'", [], |r| r.get(0))
        .unwrap();
    let mut session = PutSession::new("test".to_string());
    let fields = vec![FieldDef { name: "x); DROP TABLE".to_string(), ty: ColumnType::Float32 }];
    let r = session.on_schema(&conn, &fields, 1);
    match r {
        Err(GrpcStatus::Internal(m)) => assert!(m.contains("Invalid field name")),
        other => panic!("unexpected: {:?}", other.is_ok()),
    }
    let after: i64 = conn
        .query_row("SELECT COUNT(*) FROM sqlite_master WHERE type='table'", [], |r| r.get(0))
        .unwrap();
    assert_eq!(before, after);
}
