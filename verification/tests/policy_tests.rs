use isekai::module::GetTicket;
use isekai::policy::{default_policy, FunctionPolicy, PolicyFile, PolicyRule};

fn sample_policy() -> PolicyFile {
    let mut p = PolicyFile::new();
    p.rules.push((
        "r1".to_string(),
        PolicyRule {
            column_name: "age".to_string(),
            requires_ids: vec!["m100".to_string(), "k5".to_string()],
            rejects: vec!["never".to_string()],
            table_verifier: Some("tv1".to_string()),
        },
    ));
    p.rules.push((
        "r2".to_string(),
        PolicyRule {
            column_name: "salary".to_string(),
            requires_ids: vec![],
            rejects: vec![],
            table_verifier: None,
        },
    ));
    p.func_policy.push((
        "m100".to_string(),
        FunctionPolicy {
            func: "mean".to_string(),
            reject: "".to_string(),
            require: ">100".to_string(),
        },
    ));
    p.default_table_verifier = "tv1".to_string();
    p
}

#[test]
fn serialisation_is_valid_json_with_all_fields() {
    let p = sample_policy();
    let json = p.to_json();
    let v: serde_json::Value = serde_json::from_str(&json).unwrap();
    assert_eq!(v["rules"]["r1"]["column_name"], "age");
    assert_eq!(v["rules"]["r1"]["requires"][1], "k5");
    assert_eq!(v["rules"]["r1"]["rejects"][0], "never");
    assert_eq!(v["rules"]["r1"]["table_verifier"], "tv1");
    assert!(v["rules"]["r2"]["table_verifier"].is_null());
    assert_eq!(v["func_policy"]["m100"]["func"], "mean");
    assert_eq!(v["func_policy"]["m100"]["require"], ">100");
    assert_eq!(v["default_table_verifier"], "tv1");
    assert!(v["table_verifiers"].as_object().unwrap().is_empty());
}

#[test]
fn json_round_trip_preserves_the_document() {
    let p = sample_policy();
    let json = p.to_json();
    let q = PolicyFile::from_json(&json).unwrap();
    assert_eq!(q.to_json(), json);
}

#[test]
fn parser_accepts_whitespace_and_unknown_members() {
    let text = r#" {
        "rules": { "r": { "column_name": "c", "requires": [], "rejects": [],
                           "surprise": [1, 2, {"x": true}] } },
        "future_field": {"nested": [null, 1.5e3, "s"]},
        "default_table_verifier": "d"
    } "#;
    let p = PolicyFile::from_json(text).unwrap();
    assert_eq!(p.rules.len(), 1);
    assert_eq!(p.rules[0].0, "r");
    assert_eq!(p.rules[0].1.column_name, "c");
    assert_eq!(p.default_table_verifier, "d");
    assert!(p.func_policy.is_empty());
}

#[test]
fn parser_requires_rule_fields() {
    let text = r#"{"rules":{"r":{"requires":[],"rejects":[]}}}"#;
    assert!(PolicyFile::from_json(text).is_err());
    assert!(PolicyFile::from_json("not json").is_err());
    assert!(PolicyFile::from_json("{} trailing").is_err());
}

#[test]
fn default_verifier_only_document_parses_exactly() {
    let p = PolicyFile::from_json("{\"default_table_verifier\":\"tv9\"}").unwrap();
    assert_eq!(p.default_table_verifier, "tv9");
    assert!(p.rules.is_empty());
    assert!(p.func_policy.is_empty());
    assert!(p.table_verifiers.is_empty());
}

#[test]
fn empty_document_parses_to_empty_policy() {
    let p = PolicyFile::from_json("{}").unwrap();
    assert!(p.rules.is_empty());
    assert!(p.func_policy.is_empty());
    assert!(p.table_verifiers.is_empty());
    assert_eq!(p.default_table_verifier, "");
}

#[test]
fn rewrite_touches_every_rule_and_nothing_else() {
    let mut p = sample_policy();
    p.rewrite_column_names("x");
    assert_eq!(p.rules.len(), 2);
    for (_, rule) in &p.rules {
        assert_eq!(rule.column_name, "x");
    }
    assert_eq!(p.rules[0].1.requires_ids, vec!["m100", "k5"]);
    assert_eq!(p.rules[0].1.table_verifier.as_deref(), Some("tv1"));
    assert_eq!(p.func_policy.len(), 1);
    // Rewriting again changes nothing further.
    let once = p.to_json();
    p.rewrite_column_names("x");
    assert_eq!(p.to_json(), once);
}

#[test]
fn rule_filters_match_on_column_and_function() {
    let p = sample_policy();
    let for_age = p.get_rules_from_column_name("age");
    assert_eq!(for_age.len(), 1);
    assert_eq!(for_age[0].0, "r1");
    assert!(p.get_rules_from_column_name("missing").is_empty());

    let means = p.get_function_policy("mean");
    assert_eq!(means.len(), 1);
    assert_eq!(means[0].0, "m100");
    assert!(p.get_function_policy("sum").is_empty());
}

#[test]
fn update_function_policy_overwrites_equal_ids() {
    let p = sample_policy();
    let mut acc = vec![
        (
            "m100".to_string(),
            FunctionPolicy {
                func: "stale".to_string(),
                reject: "x".to_string(),
                require: "<1".to_string(),
            },
        ),
        (
            "other".to_string(),
            FunctionPolicy {
                func: "sum".to_string(),
                reject: "".to_string(),
                require: "".to_string(),
            },
        ),
    ];
    p.update_function_policy(&mut acc, "mean");
    // The matching entry overwrote the accumulator entry with the same id,
    // in place; nothing else changed and nothing was appended.
    assert_eq!(acc.len(), 2);
    assert_eq!(acc[0].0, "m100");
    assert_eq!(acc[0].1.func, "mean");
    assert_eq!(acc[0].1.require, ">100");
    assert_eq!(acc[1].0, "other");
    assert_eq!(acc[1].1.func, "sum");
}

#[test]
fn default_policy_requires_the_mean_floor() {
    let json = default_policy("age");
    let v: serde_json::Value = serde_json::from_str(&json).unwrap();
    let rule = &v["rules"]["rule_mean_minimum_100"];
    assert_eq!(rule["column_name"], "age");
    assert_eq!(rule["requires"][0], "mean_minimum_100");
    let fp = &v["func_policy"]["mean_minimum_100"];
    assert_eq!(fp["func"], "mean");
    assert_eq!(
        fp["require"],
        "{\"checkpoint\": \"input\", \"minimum_count\": 100}"
    );
}

#[test]
fn string_escapes_survive_the_round_trip() {
    let mut p = PolicyFile::new();
    p.default_table_verifier = "a\"b\\c\nd\te\u{0001}".to_string();
    let json = p.to_json();
    let v: serde_json::Value = serde_json::from_str(&json).unwrap();
    assert_eq!(v["default_table_verifier"], "a\"b\\c\nd\te\u{0001}");
    let q = PolicyFile::from_json(&json).unwrap();
    assert_eq!(q.default_table_verifier, "a\"b\\c\nd\te\u{0001}");
}

#[test]
fn tickets_round_trip_and_reject_garbage() {
    let t = GetTicket {
        target: "system".to_string(),
        column_name: "age".to_string(),
    };
    let json = t.to_json();
    assert_eq!(json, r#"{"target":"system","column_name":"age"}"#);
    let u = GetTicket::from_json(&json).unwrap();
    assert_eq!(u.target, "system");
    assert_eq!(u.column_name, "age");

    assert!(GetTicket::from_json("").is_err());
    assert!(GetTicket::from_json("{\"target\":\"t\"}").is_err());
    assert!(GetTicket::from_json("nonsense").is_err());
    // Tickets are read in their canonical shape only, exactly as both the
    // bridge and the service's clients emit them.
    assert!(GetTicket::from_json("{ \"target\": \"t\", \"column_name\": \"c\" }").is_err());
    assert!(GetTicket::from_json("{\"target\":\"t\",\"column_name\":\"c\"} ").is_err());
}
