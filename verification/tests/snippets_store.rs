use labworks::snippets::{
    choose_action, create_snippet, created_at_text, snippet_from_fields, delete_snippet, list_by_created_at, log_level,
    parse_storage_spec, read_snippet, storage_from_setting, Action, AppError, JsonStorage, LogLevel, Snippet,
    StorageConfig, Timestamp,
};

fn at(secs: i64) -> Timestamp {
    Timestamp { secs, nanos: 0 }
}

#[test]
fn parse_storage_spec_json_and_sqlite() {
    let cfg = parse_storage_spec("JSON:/tmp/a.json").unwrap();
    match cfg {
        StorageConfig::Json(p) => assert!(p.contains("a.json")),
        _ => panic!("expected JSON"),
    }

    let cfg = parse_storage_spec("SQLITE:/tmp/a.sqlite").unwrap();
    match cfg {
        StorageConfig::Sqlite(p) => assert!(p.contains("a.sqlite")),
        _ => panic!("expected SQLITE"),
    }

    assert!(parse_storage_spec("BAD:/tmp/x").is_err());
    assert!(parse_storage_spec("NO_COLON").is_err());
}

#[test]
fn storage_spec_errors_have_messages() {
    match parse_storage_spec("NO_COLON") {
        Err(e) => assert_eq!(e.message(), "invalid storage config: expected format KIND:/path/to/file"),
        Ok(_) => panic!("expected an error"),
    }
    match parse_storage_spec("BAD:/tmp/x") {
        Err(AppError::InvalidConfig(m)) => {
            assert_eq!(m, "unknown storage kind 'BAD', expected JSON or SQLITE")
        }
        _ => panic!("expected InvalidConfig"),
    }
    assert_eq!(
        parse_storage_spec("JSON:a:b").unwrap(),
        StorageConfig::Json("a:b".to_string())
    );
}

#[test]
fn json_storage_crud_in_memory() {
    let s = create_snippet(Vec::new(), "a", "one", at(1));
    let sn = read_snippet(&s, "a").unwrap();
    assert_eq!(sn.name, "a");
    assert_eq!(sn.content, "one");

    let listed = list_by_created_at(s);
    assert_eq!(listed.len(), 1);
    assert_eq!(listed[0].name, "a");

    let s = delete_snippet(listed, "a").unwrap();
    assert!(matches!(read_snippet(&s, "a"), Err(AppError::NotFound(_))));
}

#[test]
fn overwrite_same_name_keeps_one() {
    let s = create_snippet(Vec::new(), "x", "v1", at(1));
    let s = create_snippet(s, "x", "v2", at(2));
    assert_eq!(read_snippet(&s, "x").unwrap().content, "v2");
    let listed = list_by_created_at(s);
    assert_eq!(listed.len(), 1);
    assert_eq!(listed[0].name, "x");
    assert_eq!(listed[0].content, "v2");
}

#[test]
fn list_sorted_by_created_at_and_stable() {
    let s = vec![
        Snippet { name: "late".into(), content: "3".into(), created_at: at(30) },
        Snippet { name: "first".into(), content: "1".into(), created_at: at(10) },
        Snippet { name: "tie_a".into(), content: "2".into(), created_at: at(20) },
        Snippet { name: "tie_b".into(), content: "2".into(), created_at: Timestamp { secs: 20, nanos: 0 } },
        Snippet { name: "sub".into(), content: "4".into(), created_at: Timestamp { secs: 10, nanos: 5 } },
    ];
    let listed = list_by_created_at(s);
    let names: Vec<&str> = listed.iter().map(|s| s.name.as_str()).collect();
    assert_eq!(names, vec!["first", "sub", "tie_a", "tie_b", "late"]);
}

#[test]
fn delete_missing_is_not_found() {
    let s = create_snippet(Vec::new(), "a", "one", at(1));
    match delete_snippet(s, "b") {
        Err(e) => assert_eq!(e.message(), "snippet 'b' not found"),
        Ok(_) => panic!("expected NotFound"),
    }
}

#[test]
fn choose_action_rules() {
    let none: Option<String> = None;
    let e = choose_action(none.clone(), None, None, false, None).unwrap_err();
    assert_eq!(
        e.message(),
        "invalid arguments: exactly one of --name / --read / --delete / --list must be provided"
    );
    let e = choose_action(Some("a".into()), Some("b".into()), None, false, None).unwrap_err();
    assert!(matches!(e, AppError::InvalidArgs(_)));
    let e = choose_action(None, None, None, true, Some("http://example.com".into())).unwrap_err();
    assert_eq!(
        e,
        AppError::InvalidArgs("--download can be used only together with --name".into())
    );
    assert_eq!(
        choose_action(Some("a".into()), None, None, false, Some("u".into())).unwrap(),
        Action::Create { name: "a".into(), download: Some("u".into()) }
    );
    assert_eq!(choose_action(None, Some("r".into()), None, false, None).unwrap(), Action::Read("r".into()));
    assert_eq!(choose_action(None, None, Some("d".into()), false, None).unwrap(), Action::Delete("d".into()));
    assert_eq!(choose_action(None, None, None, true, None).unwrap(), Action::List);
}

#[test]
fn log_levels() {
    assert_eq!(log_level("ERROR"), LogLevel::Error);
    assert_eq!(log_level("Warn"), LogLevel::Warn);
    assert_eq!(log_level("debug"), LogLevel::Debug);
    assert_eq!(log_level("TRACE"), LogLevel::Trace);
    assert_eq!(log_level("info"), LogLevel::Info);
    assert_eq!(log_level("loud"), LogLevel::Info);
}

#[test]
fn json_storage_keeps_path() {
    let s = JsonStorage::new("snippets.json".to_string());
    assert_eq!(s.path, "snippets.json");
}

#[test]
fn create_and_delete_leave_other_names_alone() {
    let s = create_snippet(Vec::new(), "keep", "k", at(1));
    let s = create_snippet(s, "other", "o1", at(2));
    let s = create_snippet(s, "other", "o2", at(3));
    assert_eq!(read_snippet(&s, "keep").unwrap().content, "k");
    assert_eq!(read_snippet(&s, "other").unwrap().content, "o2");
    assert_eq!(s.len(), 2);
    let s = delete_snippet(s, "other").unwrap();
    assert_eq!(s.len(), 1);
    assert_eq!(read_snippet(&s, "keep").unwrap().created_at, at(1));
    assert!(matches!(read_snippet(&s, "other"), Err(AppError::NotFound(n)) if n == "other"));
}

#[test]
fn storage_setting_defaults_to_json_file() {
    assert_eq!(storage_from_setting(None).unwrap(), StorageConfig::Json("snippets.json".into()));
    assert_eq!(
        storage_from_setting(Some("SQLITE:/tmp/s.db".into())).unwrap(),
        StorageConfig::Sqlite("/tmp/s.db".into())
    );
    assert!(matches!(storage_from_setting(Some("nope".into())), Err(AppError::InvalidConfig(_))));
}

#[test]
fn stored_times_read_back() {
    let sn = snippet_from_fields("a".into(), "one".into(), "2024-01-02T03:04:05.5+01:00").unwrap();
    assert_eq!(sn.name, "a");
    assert_eq!(sn.content, "one");
    assert_eq!(sn.created_at, Timestamp { secs: 1_704_161_045, nanos: 500_000_000 });
    assert!(snippet_from_fields("a".into(), "one".into(), "yesterday").is_none());
    let text = created_at_text(Timestamp { secs: 1_704_161_045, nanos: 500_000_000 }).unwrap();
    assert_eq!(text, "2024-01-02T02:04:05.500+00:00");
    let back = snippet_from_fields("b".into(), "".into(), &text).unwrap();
    assert_eq!(back.created_at, Timestamp { secs: 1_704_161_045, nanos: 500_000_000 });
}
