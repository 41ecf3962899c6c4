use login_capture::paths::{
    get_config_path, get_gacha_dir, get_pool_info_path, get_record_path, get_userdata_dir,
    get_userdata_dir_fallback, init_userdata_dir, join_path, HostEnv, Platform,
};
use login_capture::record::{
    check_uid, init_user_record, initial_record, load_full_record, merged_record, pool_or_empty,
    read_char_records, read_config, read_pool_info, read_section, read_weapon_records,
    save_char_records, save_config, save_pool_info, save_weapon_records, uid_is_blank,
    stored_form, write_section, RecordInit, Saved,
};
use login_capture::text::{char_is_space, same_text, text_is_blank};
use serde_json::Value;

fn json(text: &str) -> Value {
    serde_json::from_str(text).expect("test value")
}

fn saved(r: Result<Saved, String>) -> Saved {
    match r {
        Ok(s) => s,
        Err(e) => panic!("expected a stored document, got {}", e),
    }
}

fn refusal<T>(r: Result<T, String>) -> String {
    match r {
        Ok(_) => panic!("expected a refusal"),
        Err(e) => e,
    }
}

fn env(platform: Platform, data_home: Option<&str>, home: Option<&str>, exe: Option<&str>) -> HostEnv {
    HostEnv {
        platform,
        data_home: data_home.map(|s| s.to_string()),
        home: home.map(|s| s.to_string()),
        exe_dir: exe.map(|s| s.to_string()),
    }
}

#[test]
fn join_path_cases() {
    assert_eq!(join_path("/a", "b"), "/a/b");
    assert_eq!(join_path("/a/", "b"), "/a/b");
    assert_eq!(join_path("", "b"), "b");
    assert_eq!(join_path("/a", "/b"), "/b");
    assert_eq!(join_path("/a", ""), "/a/");
    assert_eq!(join_path("/", "b"), "/b");
    assert_eq!(join_path("数据", "b.json"), "数据/b.json");
}

#[test]
fn join_path_agrees_with_std_paths() {
    for base in ["", "/", "/a", "/a/", "a/b", "rel"] {
        for part in ["", "b", "/b", "b/c", ".local"] {
            let expected = std::path::PathBuf::from(base).join(part);
            assert_eq!(join_path(base, part), expected.to_str().unwrap());
        }
    }
}

#[test]
fn fallback_dir_on_linux() {
    let e = env(Platform::Linux, Some("/xdg"), Some("/home/u"), None);
    assert_eq!(
        get_userdata_dir_fallback(&e),
        Ok("/xdg/com.bhao.endfieldgacha/userData".to_string())
    );
    let e = env(Platform::Linux, None, Some("/home/u"), None);
    assert_eq!(
        get_userdata_dir_fallback(&e),
        Ok("/home/u/.local/share/com.bhao.endfieldgacha/userData".to_string())
    );
    let e = env(Platform::Linux, None, None, Some("/opt/app"));
    assert_eq!(
        get_userdata_dir_fallback(&e),
        Err("Unable to resolve data directory (XDG_DATA_HOME/HOME not set)".to_string())
    );
}

#[test]
fn fallback_dir_elsewhere() {
    let e = env(Platform::MacOs, Some("/xdg"), Some("/Users/u"), Some("/Applications/x"));
    assert_eq!(
        get_userdata_dir_fallback(&e),
        Err("userData dir not initialized (expected to be set in Tauri setup on macOS)".to_string())
    );
    let e = env(Platform::Other, None, None, Some("C:/app"));
    assert_eq!(get_userdata_dir_fallback(&e), Ok("C:/app/userData".to_string()));
    let e = env(Platform::Other, Some("/xdg"), Some("/home/u"), None);
    assert_eq!(get_userdata_dir_fallback(&e), Err("Unable to find exe directory".to_string()));
}

#[test]
fn fixed_dir_wins_over_fallback() {
    let e = env(Platform::MacOs, None, None, None);
    assert_eq!(get_userdata_dir(Some("/fixed/userData"), &e), Ok("/fixed/userData".to_string()));
    assert!(get_userdata_dir(None, &e).is_err());
    let e = env(Platform::Linux, Some("/xdg"), None, None);
    assert_eq!(
        get_userdata_dir(None, &e),
        Ok("/xdg/com.bhao.endfieldgacha/userData".to_string())
    );
}

#[test]
fn start_up_dir_is_fixed_once() {
    assert_eq!(
        init_userdata_dir(None, Ok("/data/app".to_string())),
        Ok(Some("/data/app/userData".to_string()))
    );
    assert_eq!(init_userdata_dir(Some("/old"), Ok("/data/app".to_string())), Ok(None));
    assert_eq!(init_userdata_dir(Some("/old"), Err("no data dir".to_string())), Ok(None));
    assert_eq!(
        init_userdata_dir(None, Err("no data dir".to_string())),
        Err("no data dir".to_string())
    );
}

#[test]
fn file_paths_below_the_root() {
    assert_eq!(get_config_path("/r/userData"), "/r/userData/config.json");
    assert_eq!(get_gacha_dir("/r/userData"), "/r/userData/gachaData");
    assert_eq!(get_record_path("/r/userData", "1234"), "/r/userData/gachaData/1234.json");
    assert_eq!(get_pool_info_path("/r/userData"), "/r/userData/gachaData/poolInfo.json");
}

#[test]
fn white_space_is_what_std_says() {
    let mut n: u32 = 0;
    while n <= 0x10FFFF {
        if let Some(c) = char::from_u32(n) {
            assert_eq!(char_is_space(c), c.is_whitespace(), "U+{:X}", n);
        }
        n += 1;
    }
}

#[test]
fn blank_texts() {
    for s in ["", " ", "\t\n", "\u{3000}\u{a0}", " a ", "0", "\u{200b}", "  x"] {
        assert_eq!(text_is_blank(s), s.trim().is_empty(), "{:?}", s);
        assert_eq!(uid_is_blank(s), s.trim().is_empty(), "{:?}", s);
    }
}

#[test]
fn same_text_compares_whole_texts() {
    assert!(same_text("", ""));
    assert!(same_text("gryphline", "gryphline"));
    assert!(!same_text("gryphline", "gryphlin"));
    assert!(!same_text("gryphlin", "gryphline"));
    assert!(!same_text("a", "b"));
}

#[test]
fn missing_files_read_as_defaults() {
    assert_eq!(load_full_record(None), json("{}"));
    assert_eq!(read_config(None), Ok(json("{}")));
    assert_eq!(read_char_records("1", None), Ok(json("{}")));
    assert_eq!(read_weapon_records("1", None), Ok(json("{}")));
    let pool = match read_pool_info(None) {
        Ok(p) => p,
        Err(e) => panic!("{}", e),
    };
    let expected = json(
        r#"[
            {"pool_gacha_type": "char", "pool_id": "special_1_0_1", "pool_name": "熔火灼痕",
             "pool_type": "special", "up6_id": "chr_0016_laevat"},
            {"pool_gacha_type": "char", "pool_id": "special_1_0_3", "pool_name": "轻飘飘的信使",
             "pool_type": "special", "up6_id": "chr_0013_aglina"}
        ]"#,
    );
    assert_eq!(pool.data, expected);
    assert_eq!(pool.seed, Some(serde_json::to_string_pretty(&expected).unwrap()));
}

#[test]
fn record_sections_merge() {
    let first = saved(save_char_records("42", None, json(r#"{"a":1}"#)));
    assert_eq!(first.document, json(r#"{"character":{"a":1}}"#));
    assert_eq!(first.text, serde_json::to_string_pretty(&first.document).unwrap());
    assert_eq!(first.message, "UID 42 data saved successfully");
    let second = saved(save_weapon_records("42", Some(&first.text), json(r#"{"b":2}"#)));
    assert_eq!(second.document, json(r#"{"character":{"a":1},"weapon":{"b":2}}"#));
    assert_eq!(second.message, "UID 42 weapon data saved");
    assert_eq!(read_char_records("42", Some(&second.text)), Ok(json(r#"{"a":1}"#)));
    assert_eq!(read_weapon_records("42", Some(&second.text)), Ok(json(r#"{"b":2}"#)));
    assert_eq!(
        load_full_record(Some(&second.text)),
        json(r#"{"character":{"a":1},"weapon":{"b":2}}"#)
    );
}

#[test]
fn a_write_replaces_its_own_section_only() {
    let stored = r#"{"character":{"old":true},"weapon":[1,2],"extra":"kept"}"#;
    let s = saved(save_char_records("u", Some(stored), json(r#"{"new":1}"#)));
    assert_eq!(s.document, json(r#"{"character":{"new":1},"weapon":[1,2],"extra":"kept"}"#));
    let s = saved(save_weapon_records("u", Some(stored), json("null")));
    assert_eq!(s.document, json(r#"{"character":{"old":true},"weapon":null,"extra":"kept"}"#));
    assert_eq!(
        merged_record(Some(stored), "extra", json("7")),
        json(r#"{"character":{"old":true},"weapon":[1,2],"extra":7}"#)
    );
}

#[test]
fn broken_records_read_as_empty() {
    for stored in ["", "not json", "[1,2]", "3", "\"text\"", "null", "{\"a\":"] {
        assert_eq!(load_full_record(Some(stored)), json("{}"), "{:?}", stored);
        assert_eq!(read_char_records("u", Some(stored)), Ok(json("{}")));
        let s = saved(save_weapon_records("u", Some(stored), json("[1]")));
        assert_eq!(s.document, json(r#"{"weapon":[1]}"#));
    }
}

#[test]
fn sections_are_read_or_default() {
    let doc = json(r#"{"character":[1],"other":{"x":1}}"#);
    assert_eq!(read_section(&doc, "character"), json("[1]"));
    assert_eq!(read_section(&doc, "weapon"), json("{}"));
    assert_eq!(read_section(&json("[1]"), "character"), json("{}"));
    assert_eq!(write_section(doc, "weapon", json("2")),
        json(r#"{"character":[1],"other":{"x":1},"weapon":2}"#));
}

#[test]
fn blank_identities_are_refused() {
    for uid in ["", "   ", "\t", "\u{3000}"] {
        assert_eq!(read_char_records(uid, None), Err("UID cannot be empty".to_string()));
        assert_eq!(read_weapon_records(uid, None), Err("UID cannot be empty".to_string()));
        assert_eq!(refusal(save_char_records(uid, None, json("{}"))), "UID cannot be empty");
        assert_eq!(refusal(save_weapon_records(uid, None, json("{}"))), "UID cannot be empty");
        assert_eq!(refusal(init_user_record(uid, false)), "UID cannot be empty");
        assert_eq!(refusal(init_user_record(uid, true)), "UID cannot be empty");
    }
}

#[test]
fn identities_are_checked() {
    assert_eq!(check_uid("1001"), Ok(()));
    assert_eq!(check_uid(" 1001 "), Ok(()));
    assert_eq!(check_uid(" \n"), Err("UID cannot be empty".to_string()));
}

#[test]
fn stored_form_follows_the_serializer() {
    let s = saved(stored_form(json("[1]"), Ok("[1]".to_string()), "done".to_string()));
    assert_eq!(s.document, json("[1]"));
    assert_eq!(s.text, "[1]");
    assert_eq!(s.message, "done");
    let e = refusal(stored_form(json("[1]"), Err("broken".to_string()), "done".to_string()));
    assert_eq!(e, "broken");
}

#[test]
fn record_initialisation() {
    match init_user_record("7", true) {
        Ok(RecordInit::Exists(message)) => assert_eq!(message, "Record already exists"),
        _ => panic!("expected the existing record to be kept"),
    }
    match init_user_record("7", false) {
        Ok(RecordInit::Created(s)) => {
            assert_eq!(s.document, json(r#"{"character":{},"weapon":{}}"#));
            assert_eq!(s.text, serde_json::to_string_pretty(&s.document).unwrap());
            assert_eq!(s.message, "Record initialized");
        }
        _ => panic!("expected a new record"),
    }
    assert_eq!(initial_record(), json(r#"{"character":{},"weapon":{}}"#));
}

#[test]
fn configuration_round_trip() {
    let s = saved(save_config(json(r#"{"theme":"dark","n":[1,2.5,null]}"#)));
    assert_eq!(s.message, "Configuration saved successfully");
    assert_eq!(s.text, "{\n  \"n\": [\n    1,\n    2.5,\n    null\n  ],\n  \"theme\": \"dark\"\n}");
    assert_eq!(read_config(Some(&s.text)), Ok(json(r#"{"theme":"dark","n":[1,2.5,null]}"#)));
    // A stored value of another shape is handed out as it is.
    assert_eq!(read_config(Some("[1]")), Ok(json("[1]")));
    let e = refusal(read_config(Some("{oops")));
    assert_eq!(e, serde_json::from_str::<Value>("{oops").unwrap_err().to_string());
}

#[test]
fn pool_list_reads_and_writes() {
    let p = match read_pool_info(Some(r#"[{"pool_id":"x"}]"#)) {
        Ok(p) => p,
        Err(e) => panic!("{}", e),
    };
    assert_eq!(p.data, json(r#"[{"pool_id":"x"}]"#));
    assert_eq!(p.seed, None);
    for stored in ["", "{}", "nonsense", "1"] {
        let p = match read_pool_info(Some(stored)) {
            Ok(p) => p,
            Err(e) => panic!("{}", e),
        };
        assert_eq!(p.data, json("[]"));
        assert_eq!(p.seed, None);
    }
    let s = saved(save_pool_info(json("[1,2]")));
    assert_eq!(s.text, "[\n  1,\n  2\n]");
    assert_eq!(s.message, "poolInfo saved");
    for data in ["{}", "1", "null", "\"[]\""] {
        assert_eq!(refusal(save_pool_info(json(data))), "poolInfo must be a JSON array");
    }
    assert_eq!(pool_or_empty(None), json("[]"));
    assert_eq!(pool_or_empty(Some(json("{}"))), json("[]"));
    assert_eq!(pool_or_empty(Some(json("[3]"))), json("[3]"));
}
