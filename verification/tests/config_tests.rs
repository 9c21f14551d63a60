use motioncast::config::{
    classify_read, config_location, judge_load, judge_save, load_from_bytes, load_outcome,
    validate_for_save, Loaded, ReadResult, SaveError,
};

fn empty(backup: bool) -> Loaded {
    Loaded { content: "{}".to_string(), backup }
}

#[test]
fn valid_documents_may_be_saved() {
    for doc in ["{}", "[]", "null", "42", "\"text\"", "{\"rate\": 60, \"schema\": \"ub\"}", " [1, 2.5, true] "] {
        assert_eq!(validate_for_save(doc), Ok(()), "{}", doc);
    }
}

#[test]
fn malformed_documents_are_refused() {
    for doc in ["", "{", "{\"a\":}", "[1,]", "{} {}", "nul", "{'a': 1}", "\u{feff}{}"] {
        match validate_for_save(doc) {
            Err(SaveError::InvalidJson(detail)) => assert!(!detail.is_empty()),
            other => panic!("{:?} for {:?}", other, doc),
        }
    }
}

#[test]
fn refusal_carries_the_parser_description() {
    let want = serde_json::from_str::<serde_json::Value>("{\"a\":}").unwrap_err().to_string();
    assert_eq!(validate_for_save("{\"a\":}"), Err(SaveError::InvalidJson(want.clone())));
    assert_eq!(want, "expected value at line 1 column 6");
    assert_eq!(
        validate_for_save(""),
        Err(SaveError::InvalidJson("EOF while parsing a value at line 1 column 0".to_string()))
    );
}

#[test]
fn judge_save_by_fault() {
    assert_eq!(judge_save(None), Ok(()));
    assert_eq!(
        judge_save(Some("bad".to_string())),
        Err(SaveError::InvalidJson("bad".to_string()))
    );
}

#[test]
fn error_messages() {
    assert_eq!(
        SaveError::InvalidJson("expected value at line 1 column 6".to_string()).message(),
        "無効なJSONです: expected value at line 1 column 6"
    );
    assert_eq!(
        SaveError::TempWrite("disk full".to_string()).message(),
        "一時ファイル書き込みに失敗しました: disk full"
    );
    assert_eq!(
        SaveError::Replace("permission denied".to_string()).message(),
        "保存に失敗しました: permission denied"
    );
    assert_eq!(SaveError::Replace(String::new()).message(), "保存に失敗しました: ");
}

#[test]
fn load_of_a_missing_file_gives_the_empty_document() {
    assert_eq!(load_outcome(ReadResult::Missing), empty(false));
    assert_eq!(load_from_bytes(None), empty(false));
}

#[test]
fn load_of_a_document_returns_it_unchanged() {
    let doc = "{\n  \"rate\": 60,\n  \"name\": \"日本語\"\n}\n".to_string();
    assert_eq!(
        load_outcome(ReadResult::Text(doc.clone())),
        Loaded { content: doc.clone(), backup: false }
    );
    assert_eq!(
        load_from_bytes(Some(doc.clone().into_bytes())),
        Loaded { content: doc, backup: false }
    );
}

#[test]
fn load_of_a_corrupted_file_backs_it_up() {
    assert_eq!(load_outcome(ReadResult::Text("{ not json".to_string())), empty(true));
    assert_eq!(load_outcome(ReadResult::Text(String::new())), empty(true));
    assert_eq!(load_from_bytes(Some(b"{ not json".to_vec())), empty(true));
    assert_eq!(load_from_bytes(Some(Vec::new())), empty(true));
}

#[test]
fn load_of_a_file_that_is_no_text_backs_it_up() {
    assert_eq!(load_outcome(ReadResult::Undecodable), empty(true));
    assert_eq!(load_from_bytes(Some(vec![0xff, 0xfe])), empty(true));
    assert_eq!(load_from_bytes(Some(vec![b'{', b'}', 0x80])), empty(true));
    assert_eq!(load_from_bytes(Some(vec![0xc0, 0xaf])), empty(true));
    assert_eq!(load_from_bytes(Some(vec![0xed, 0xa0, 0x80])), empty(true));
    assert_eq!(load_from_bytes(Some(vec![0xf4, 0x90, 0x80, 0x80])), empty(true));
    assert_eq!(load_from_bytes(Some(vec![b'"', 0xe6, 0x97, b'"'])), empty(true));
}

#[test]
fn classify_read_sorts_bytes() {
    assert_eq!(classify_read(None), ReadResult::Missing);
    assert_eq!(classify_read(Some(vec![0xff, 0xfe])), ReadResult::Undecodable);
    assert_eq!(classify_read(Some(Vec::new())), ReadResult::Text(String::new()));
    assert_eq!(classify_read(Some(b"{}".to_vec())), ReadResult::Text("{}".to_string()));
    assert_eq!(
        classify_read(Some(vec![0xe6, 0x97, 0xa5, 0xf0, 0x9f, 0x98, 0x80])),
        ReadResult::Text("日😀".to_string())
    );
    assert_eq!(classify_read(Some(vec![0x7b, 0x00, 0x7d])), ReadResult::Text("{\0}".to_string()));
}

#[test]
fn judge_load_by_verdict() {
    assert_eq!(
        judge_load("[1]".to_string(), true),
        Loaded { content: "[1]".to_string(), backup: false }
    );
    assert_eq!(
        judge_load("[1".to_string(), false),
        Loaded { content: "{}".to_string(), backup: true }
    );
}

#[test]
fn save_then_load_round_trip() {
    for doc in ["{}", "{\"a\": [1, 2, 3]}", "  {\"k\":\"v\"}  ", "[\"\\u00e9\", \"é\", \"日本語\"]"] {
        assert_eq!(validate_for_save(doc), Ok(()));
        let stored = doc.as_bytes().to_vec();
        let loaded = load_from_bytes(Some(stored.clone()));
        assert_eq!(loaded.content.as_bytes(), stored.as_slice());
        assert_eq!(loaded.content, doc);
        assert!(!loaded.backup);
    }
}

#[test]
fn refused_save_is_decided_before_any_load() {
    let before = b"{\"kept\": true}".to_vec();
    assert!(validate_for_save("{broken").is_err());
    let loaded = load_from_bytes(Some(before.clone()));
    assert_eq!(loaded.content.as_bytes(), before.as_slice());
    assert!(!loaded.backup);
}

#[test]
fn location_under_the_application_data_root() {
    let loc = config_location(Some("C:\\Users\\me\\AppData\\Roaming".to_string()), Some("/home/me".to_string()));
    assert_eq!(loc.dir, vec!["C:\\Users\\me\\AppData\\Roaming".to_string(), "MotionCast".to_string()]);
    assert_eq!(loc.file, "config.json");
    assert_eq!(loc.backup, "config.json.bak");
    assert_eq!(loc.temp, "config.json.tmp");
}

#[test]
fn location_under_the_home_directory() {
    let loc = config_location(None, Some("/home/me".to_string()));
    assert_eq!(
        loc.dir,
        vec!["/home/me".to_string(), ".config".to_string(), "MotionCast".to_string()]
    );
    assert_eq!(loc.file, "config.json");
}

#[test]
fn location_under_the_current_directory() {
    let loc = config_location(None, None);
    assert_eq!(loc.dir, vec![".".to_string(), "MotionCast".to_string()]);
    assert_eq!(loc.file, "config.json");
    assert_eq!(loc.backup, "config.json.bak");
    assert_eq!(loc.temp, "config.json.tmp");
}

#[test]
fn sibling_names_are_what_a_changed_extension_gives() {
    let loc = config_location(None, None);
    let path = std::path::PathBuf::from(&loc.file);
    assert_eq!(path.with_extension("json.bak"), std::path::PathBuf::from(&loc.backup));
    assert_eq!(path.with_extension("json.tmp"), std::path::PathBuf::from(&loc.temp));
}
