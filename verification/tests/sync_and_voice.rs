use momolite::clock::{generated_id, now_string, parse_i64, parse_review_time};
use momolite::json::JsonValue;
use momolite::sync::{
    blob_json, change_log_name, default_sync_settings, device_snapshot_name, http_success, json_key,
    normalize_base_url, normalize_remote_path, primary_key_column, random_secret, remote_folder_ready,
    remote_folder_urls, remote_row_columns, remote_updated_at, remote_url, require_ready_settings,
    resolve_sync_fields, row_primary_value, should_upsert_remote_row, snapshot_tables, sync_change_record,
    sync_table_order, table_row_objects, text_less, upsert_statement, SaveSyncSettingsRequest, SyncSettings,
};
use momolite::tts::{cache_file_name, cache_key, tts_input, tts_response};
use sha2::{Digest, Sha256};

fn to_json(v: &serde_json::Value) -> JsonValue {
    match v {
        serde_json::Value::Null => JsonValue::Null,
        serde_json::Value::Bool(b) => JsonValue::Bool(*b),
        serde_json::Value::Number(n) => JsonValue::Number(n.to_string()),
        serde_json::Value::String(s) => JsonValue::Str(s.clone()),
        serde_json::Value::Array(a) => JsonValue::Array(a.iter().map(to_json).collect()),
        serde_json::Value::Object(o) => JsonValue::Object(o.iter().map(|(k, x)| (k.clone(), to_json(x))).collect()),
    }
}

fn json(text: &str) -> JsonValue {
    to_json(&serde_json::from_str::<serde_json::Value>(text).expect("test JSON"))
}

fn settings(base_url: &str, remote_path: &str) -> SyncSettings {
    SyncSettings {
        provider: "jianguoyun_webdav".to_string(),
        base_url: base_url.to_string(),
        username: "me@example.com".to_string(),
        remote_path: remote_path.to_string(),
        device_id: "device_1".to_string(),
        auto_sync_enabled: false,
        last_sync_at: None,
        sync_status: "idle".to_string(),
        last_error: String::new(),
        updated_at: "100".to_string(),
    }
}

#[test]
fn normalizes_remote_paths_for_webdav() {
    assert_eq!(normalize_remote_path(""), "/MomoLite/sync/");
    assert_eq!(normalize_remote_path("MomoLite/sync"), "/MomoLite/sync/");
    assert_eq!(normalize_remote_path("/MomoLite/sync/"), "/MomoLite/sync/");
}

#[test]
fn normalizing_remote_paths_twice_changes_nothing() {
    for raw in ["", "///", "  a/b  ", "/ x /", "deep//path/"] {
        let once = normalize_remote_path(raw);
        assert_eq!(normalize_remote_path(&once), once);
        assert!(once.starts_with('/') && once.ends_with('/'));
    }
}

#[test]
fn normalizes_server_urls() {
    assert_eq!(normalize_base_url("  "), "https://dav.jianguoyun.com/dav/");
    assert_eq!(normalize_base_url(" https://dav.example.com/dav/// "), "https://dav.example.com/dav");
}

#[test]
fn builds_remote_urls() {
    let s = settings("https://dav.jianguoyun.com/dav/", "MomoLite/sync");
    assert_eq!(remote_url(&s, ""), "https://dav.jianguoyun.com/dav/MomoLite/sync");
    assert_eq!(remote_url(&s, "snapshot.json"), "https://dav.jianguoyun.com/dav/MomoLite/sync/snapshot.json");
    assert_eq!(remote_url(&s, "/changes/device_1.jsonl"), "https://dav.jianguoyun.com/dav/MomoLite/sync/changes/device_1.jsonl");
    let urls = remote_folder_urls(&s);
    assert_eq!(
        urls,
        vec![
            "https://dav.jianguoyun.com/dav/MomoLite".to_string(),
            "https://dav.jianguoyun.com/dav/MomoLite/sync".to_string(),
            "https://dav.jianguoyun.com/dav/MomoLite/sync/changes".to_string(),
        ]
    );
    assert_eq!(device_snapshot_name("device_1"), "snapshots-device_1.json");
    assert_eq!(change_log_name("device_1"), "changes/device_1.jsonl");
    assert!(remote_folder_ready(405) && remote_folder_ready(201) && !remote_folder_ready(404));
    assert!(http_success(207) && !http_success(404));
}

#[test]
fn requires_credentials_and_http_server() {
    let s = settings("https://dav.jianguoyun.com/dav/", "/MomoLite/sync/");
    assert_eq!(require_ready_settings(&s, "secret"), Ok(()));
    assert_eq!(require_ready_settings(&s, " "), Err("WebDAV app password is empty".to_string()));
    let mut blank = settings("https://dav.jianguoyun.com/dav/", "/");
    blank.username = " ".to_string();
    assert_eq!(require_ready_settings(&blank, "secret"), Err("WebDAV username is empty".to_string()));
    let ftp = settings("ftp://dav", "/");
    assert_eq!(require_ready_settings(&ftp, "secret"), Err("WebDAV server URL must start with http:// or https://".to_string()));
}

#[test]
fn merges_remote_snapshot_without_overwriting_newer_local_rows() {
    let snapshot = json(
        r#"{
            "schemaVersion": 1,
            "deviceId": "device_remote",
            "tables": {
                "course_packs": [
                    {"id": "course_1", "name": "Older Remote Course", "language": "en", "daily_new_target": 10, "created_at": "100", "updated_at": "150"},
                    {"id": "course_2", "name": "Remote Course", "language": "en", "daily_new_target": 30, "created_at": "300", "updated_at": "300"}
                ]
            }
        }"#,
    );
    let tables = snapshot_tables(&snapshot).expect("tables");
    let rows = match momolite::json::get_member(tables, "course_packs") {
        Some(JsonValue::Array(rows)) => rows,
        _ => panic!("rows"),
    };
    let positions = table_row_objects(tables, "course_packs");
    assert_eq!(positions, vec![0, 1]);
    let local = |id: &str| if id == "course_1" { Some("200".to_string()) } else { None };
    let mut merged = 0;
    for i in positions {
        let row = &rows[i];
        let id = row_primary_value("course_packs", "id", row).expect("id");
        if should_upsert_remote_row(&remote_updated_at(row), &local(&id), local(&id).is_some()) {
            merged += 1;
            assert_eq!(id, "course_2");
        }
    }
    assert_eq!(merged, 1);
}

#[test]
fn upsert_decisions_follow_timestamps() {
    assert!(should_upsert_remote_row(&Some("150".to_string()), &None, false));
    assert!(should_upsert_remote_row(&Some("200".to_string()), &Some("200".to_string()), true));
    assert!(!should_upsert_remote_row(&Some("150".to_string()), &Some("200".to_string()), true));
    assert!(!should_upsert_remote_row(&None, &None, true));
    assert!(should_upsert_remote_row(&None, &None, false));
    assert!(text_less("abc", "abd") && text_less("ab", "abc") && !text_less("b", "abc"));
}

#[test]
fn builds_upsert_statements() {
    let columns = vec!["id".to_string(), "name".to_string(), "language".to_string(), "note".to_string()];
    let row = json(r#"{"id": "c1", "name": "n", "language": "en", "extra": 1}"#);
    let present = remote_row_columns(&columns, &row);
    assert_eq!(present, vec!["id".to_string(), "name".to_string(), "language".to_string()]);
    assert_eq!(
        upsert_statement("course_packs", &present, "id"),
        "INSERT INTO course_packs (id, name, language) VALUES (?1, ?2, ?3) ON CONFLICT(id) DO UPDATE SET name = excluded.name, language = excluded.language"
    );
    assert_eq!(
        upsert_statement("daily_stats", &vec!["date".to_string()], "date"),
        "INSERT INTO daily_stats (date) VALUES (?1) ON CONFLICT(date) DO NOTHING"
    );
    assert_eq!(primary_key_column("t", &vec![("a".to_string(), 0), ("b".to_string(), 1)]), Ok("b".to_string()));
    assert_eq!(primary_key_column("t", &vec![("a".to_string(), 0)]), Err("table t has no primary key".to_string()));
    assert_eq!(json_key(&JsonValue::Number("42".to_string())), Some("42".to_string()));
    assert_eq!(json_key(&JsonValue::Bool(true)), None);
    assert_eq!(
        row_primary_value("lessons", "id", &json(r#"{"name": "x"}"#)),
        Err("remote lessons row is missing primary key id".to_string())
    );
    assert_eq!(snapshot_tables(&json("{}")).err(), Some("remote snapshot has no tables object".to_string()));
}

#[test]
fn lists_tables_in_merge_order() {
    let order = sync_table_order();
    assert_eq!(order.len(), 18);
    assert_eq!(order[0], "course_packs");
    assert_eq!(order[17], "scene_vocabulary_links");
}

#[test]
fn saves_sync_settings_with_defaults() {
    let request = SaveSyncSettingsRequest {
        provider: " ".to_string(),
        base_url: "".to_string(),
        username: " me ".to_string(),
        remote_path: "notes".to_string(),
        auto_sync_enabled: true,
    };
    let f = resolve_sync_fields(&request);
    assert_eq!(f.provider, "jianguoyun_webdav");
    assert_eq!(f.base_url, "https://dav.jianguoyun.com/dav/");
    assert_eq!(f.username, "me");
    assert_eq!(f.remote_path, "/notes/");
    let d = default_sync_settings("device_9".to_string(), "5".to_string());
    assert_eq!(d.sync_status, "idle");
    assert_eq!(d.remote_path, "/MomoLite/sync/");
    assert!(!d.auto_sync_enabled);
}

#[test]
fn secrets_and_blobs_are_base64() {
    let secret = random_secret().expect("secret");
    assert_eq!(secret.len(), 44);
    assert_eq!(blob_json(b"hi"), JsonValue::Object(vec![("base64".to_string(), JsonValue::Str("aGk=".to_string()))]));
    let record = sync_change_record("sync_change_1", "device_1", "100", 12);
    match record {
        JsonValue::Object(m) => {
            assert_eq!(m[1], ("type".to_string(), JsonValue::Str("snapshot_uploaded".to_string())));
            assert_eq!(m[4], ("snapshotBytes".to_string(), JsonValue::Number("12".to_string())));
        },
        _ => panic!("object"),
    }
}

#[test]
fn checks_speech_input() {
    assert_eq!(tts_input("  hello  "), Ok("hello".to_string()));
    assert_eq!(tts_input("   "), Err("text is empty".to_string()));
    let long = "好".repeat(700);
    assert_eq!(tts_input(&long), Err("text is too long for one TTS request".to_string()));
    assert_eq!(tts_input(&"a".repeat(2000)).map(|t| t.len()), Ok(2000));
}

#[test]
fn caches_speech_by_sha256_of_voice_and_text() {
    let key = cache_key("hello");
    assert_eq!(key.len(), 64);
    assert!(key.chars().all(|c| c.is_ascii_hexdigit() && !c.is_ascii_uppercase()));
    assert_ne!(key, cache_key("hello!"));
    let expected: String = Sha256::digest(b"en_US-lessac-medium\nhello").iter().map(|b| format!("{b:02x}")).collect();
    assert_eq!(key, expected);
    assert_eq!(cache_file_name("hello"), format!("{expected}.wav"));
    let r = tts_response("AAAA".to_string(), true);
    assert_eq!(r.engine, "Piper en_US-lessac-medium");
    assert!(r.cached);
}

#[test]
fn reads_review_times() {
    let t = parse_review_time("2026-04-26T10:00:00+08:00");
    assert_eq!(t.seconds, 1777168800);
    assert_eq!(t.nanos, 0);
    let t = parse_review_time("1700000000");
    assert_eq!(t.seconds, 1700000000);
    assert_eq!(parse_i64("-42"), Some(-42));
    assert_eq!(parse_i64("+7"), Some(7));
    assert_eq!(parse_i64("9223372036854775808"), None);
    assert_eq!(parse_i64("-9223372036854775808"), Some(i64::MIN));
    assert_eq!(parse_i64("1 "), None);
    assert_eq!(parse_i64("-"), None);
}

#[test]
fn generates_ids_and_timestamps() {
    let id = generated_id("scene", 3);
    assert!(id.starts_with("scene_") && id.ends_with("_3"));
    let now = now_string();
    assert!(!now.is_empty() && now.chars().all(|c| c.is_ascii_digit()));
}
