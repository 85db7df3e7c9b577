use isekai::module::SaveResponse;
use isekai::report::{Endorsement, ProcType, ReportArgs, ReportDirectArgs};
use isekai::shared::Dag;
use isekai::storage::{get_policy, open_db, DbMode, StorageError};
use isekai::util::parse_i64;
use isekai::yak::YakModule;

#[test]
fn dag_numbers_nodes_and_edges() {
    let mut dag = Dag::new();
    let a = dag.new_node("load", "{}");
    let b = dag.new_node("mean", "{}");
    assert_eq!(a.id, 1);
    assert_eq!(b.id, 2);
    assert_eq!(a.func.name, "load");
    assert_eq!(dag.nodes.len(), 2);

    dag.add_independent(&a);
    dag.add_dependency(&a, &b);
    assert_eq!(dag.edges, vec![(0, 1, 1), (1, 2, 2)]);
}

#[test]
fn report_flag_conflicts() {
    let base = ReportArgs {
        att_report_path: "att.bin".to_string(),
        random: false,
        vmpl: Some(1),
        request_file: "req.bin".to_string(),
        platform: false,
        dry: false,
    };

    let ok = ReportArgs { random: true, ..base.clone() };
    assert!(ok.verify(false).is_ok());

    let both = ReportArgs { random: true, platform: true, ..base.clone() };
    assert!(both.verify(false).is_err());

    let random_on_hyperv = ReportArgs { random: true, ..base.clone() };
    assert!(random_on_hyperv.verify(true).is_err());

    let platform_without_hyperv = ReportArgs { platform: true, ..base.clone() };
    assert!(platform_without_hyperv.verify(false).is_err());
    let platform_on_hyperv = ReportArgs { platform: true, ..base };
    assert!(platform_on_hyperv.verify(true).is_ok());
}

#[test]
fn default_report_request_carries_the_test_pattern() {
    let args = ReportDirectArgs::default();
    assert_eq!(args.proc_type, ProcType::Milan);
    assert_eq!(args.endorsement, Endorsement::Vcek);
    assert_eq!(args.request_data, isekai::handshake::test_challenge());
    assert_eq!(args.request_data.len(), 64);
}

#[test]
fn save_response_serialises_exactly() {
    let r = SaveResponse { table_name: "1234".to_string() };
    assert_eq!(r.to_json(), r#"{"table_name":"1234"}"#);
}

#[test]
fn integer_parsing_matches_the_standard_library() {
    for text in [
        "0", "1", "-1", "+7", "100", "-100", "9223372036854775807", "-9223372036854775808",
        "9223372036854775808", "-9223372036854775809", "", "-", "+", "1x", "x1", " 1",
        "00042",
    ] {
        assert_eq!(parse_i64(text), text.parse::<i64>().ok(), "mismatch on {:?}", text);
    }
}

#[test]
fn db_errors_are_reported_as_db() {
    let conn = open_db(":memory:", DbMode::ReadWriteCreate).unwrap();
    // No `policy` table exists, so the query itself fails.
    let r = get_policy(&conn, "test", "1", "x");
    assert!(matches!(r, Err(StorageError::Db(_))));
}

#[test]
fn malformed_stored_policy_is_reported() {
    let conn = open_db(":memory:", DbMode::ReadWriteCreate).unwrap();
    conn.execute("CREATE TABLE policy (table_name TEXT PRIMARY KEY, json TEXT)", [])
        .unwrap();
    conn.execute(
        "INSERT INTO policy (table_name, json) VALUES ('test_9', 'not json')",
        [],
    )
    .unwrap();
    let r = get_policy(&conn, "test", "9", "x");
    assert!(matches!(r, Err(StorageError::MalformedPolicy(_))));
}

#[test]
fn corrupt_container_header_is_refused() {
    // Four length bytes claiming a five-byte header of garbage.
    let bytes = vec![5u8, 0, 0, 0, b'?', b'?', b'?', b'?', b'?'];
    assert!(YakModule::read(&bytes).is_err());
}
