//! Stored logins and paths.

use std::path::{Path, PathBuf};

use serde_json::Value;

use dqn::music::{
    token_is_expired_at, LoginToken, NeteaseLoginToken, Platform, TencentLoginToken,
};
use dqn::storage::{
    cookie_version, milliseconds_read, unix_now, whole_seconds, AppPaths, CookieFile, CookieStore, LocationFailure,
    Relocation, RelocationEvent, RelocationFailure, SaveFailure, DOWNLOAD_DIR_NAME,
};

fn netease(expires_at: Option<i64>) -> LoginToken {
    LoginToken::Netease(NeteaseLoginToken::new("u", "ru", "csrf", expires_at))
}

fn tencent(expires_at: Option<i64>) -> LoginToken {
    LoginToken::Tencent(TencentLoginToken::new(
        42,
        "key",
        "refresh",
        "refresh-key",
        expires_at,
        1,
    ))
}

fn text_field(object: &serde_json::Map<String, Value>, name: &str) -> String {
    object[name].as_str().unwrap().to_owned()
}

fn encode(store: &CookieStore) -> String {
    let mut root = serde_json::Map::new();
    root.insert("version".to_owned(), Value::from(store.version));
    if let Some(token) = &store.netease {
        let mut object = serde_json::Map::new();
        object.insert("music_u".to_owned(), Value::from(token.music_u.as_str()));
        object.insert("music_r_u".to_owned(), Value::from(token.music_r_u.as_str()));
        object.insert("csrf".to_owned(), Value::from(token.csrf.as_str()));
        object.insert("expires_at".to_owned(), Value::from(token.expires_at));
        root.insert("netease".to_owned(), Value::Object(object));
    }
    if let Some(token) = &store.tencent {
        let mut object = serde_json::Map::new();
        object.insert("music_id".to_owned(), Value::from(token.music_id));
        object.insert("music_key".to_owned(), Value::from(token.music_key.as_str()));
        object.insert(
            "refresh_token".to_owned(),
            Value::from(token.refresh_token.as_str()),
        );
        object.insert(
            "refresh_key".to_owned(),
            Value::from(token.refresh_key.as_str()),
        );
        object.insert("login_type".to_owned(), Value::from(token.login_type));
        object.insert("expires_at".to_owned(), Value::from(token.expires_at));
        root.insert("tencent".to_owned(), Value::Object(object));
    }
    serde_json::to_string(&Value::Object(root)).unwrap()
}

fn decode(json: &str) -> CookieStore {
    let root: Value = serde_json::from_str(json).unwrap();
    CookieStore {
        version: root["version"].as_u64().unwrap() as u8,
        netease: root["netease"].as_object().map(|object| NeteaseLoginToken {
            music_u: text_field(object, "music_u"),
            music_r_u: text_field(object, "music_r_u"),
            csrf: text_field(object, "csrf"),
            expires_at: object["expires_at"].as_i64(),
        }),
        tencent: root["tencent"].as_object().map(|object| TencentLoginToken {
            music_id: object["music_id"].as_u64().unwrap(),
            music_key: text_field(object, "music_key"),
            refresh_token: text_field(object, "refresh_token"),
            refresh_key: text_field(object, "refresh_key"),
            login_type: object["login_type"].as_u64().unwrap(),
            expires_at: object["expires_at"].as_i64(),
        }),
    }
}

#[test]
fn cookie_path_is_relative() {
    let paths = AppPaths::discover(Ok("/opt/dqn".to_owned())).unwrap();
    assert!(Path::new(&paths.cookie_file).is_relative());
    assert_eq!(
        PathBuf::from(&paths.cookie_file),
        PathBuf::from("music_cookie.json")
    );
}

#[test]
fn downloads_go_to_a_folder_beside_the_executable() {
    for directory in ["/opt/dqn", "/opt/dqn/", "/", "dqn", "."] {
        let paths = AppPaths::discover(Ok(directory.to_owned())).unwrap();
        assert_eq!(
            PathBuf::from(&paths.download_dir),
            Path::new(directory).join("Downloads")
        );
    }
    assert_eq!(DOWNLOAD_DIR_NAME, "Downloads");
}

#[test]
fn unknown_location_is_reported() {
    for (failure, message) in [
        (LocationFailure::NoLaunchDirectory, "无法确定启动工作目录"),
        (LocationFailure::NoExecutable, "无法确定应用程序路径"),
        (LocationFailure::NoParent, "应用程序路径没有父目录"),
    ] {
        assert_eq!(AppPaths::discover(Err(failure)).unwrap_err(), failure);
        assert_eq!(failure.message(), message);
    }
}

#[test]
fn cookie_store_keeps_tokens_for_both_platforms() {
    let mut store = CookieStore::default();
    store.set(netease(None));
    store.set(tencent(None));

    let decoded = decode(&encode(&store));
    assert!(matches!(
        decoded.token_for(Platform::Netease),
        Some(LoginToken::Netease(_))
    ));
    assert!(matches!(
        decoded.token_for(Platform::Tencent),
        Some(LoginToken::Tencent(_))
    ));
    assert_eq!(
        decoded.cookie_header_for(Platform::Netease).as_deref(),
        Some("MUSIC_U=u; __csrf=csrf")
    );
    assert_eq!(
        decoded.cookie_header_for(Platform::Tencent).as_deref(),
        Some("uin=42; qqmusic_key=key; qm_keyst=key; tmeLoginType=1")
    );
    assert_eq!(decoded.stored_count(), 2);
}

#[test]
fn expired_token_is_not_used_and_is_scheduled_for_refresh() {
    let now = 1_000_000;
    let mut store = CookieStore::default();
    store.set(netease(Some(now - 1)));

    assert!(token_is_expired_at(
        &store.stored_token_for(Platform::Netease).unwrap(),
        now
    ));
    assert_eq!(
        store.tokens_requiring_refresh_at(now, 24 * 60 * 60)[0].0,
        Platform::Netease
    );
    assert!(store.token_for_at(Platform::Netease, now).is_none());
    assert!(store.cookie_header_for_at(Platform::Netease, now).is_none());
    assert!(store.token_for(Platform::Netease).is_none());
    assert!(store.is_expired(Platform::Netease));
    assert_eq!(store.login_state(Platform::Netease), "登录已过期");
}

#[test]
fn near_expiry_and_unknown_expiry_are_refreshed() {
    let now = 1_000_000;
    let mut store = CookieStore::default();
    store.set(netease(Some(now + 60 * 60)));
    store.set(tencent(None));

    let candidates = store.tokens_requiring_refresh_at(now, 24 * 60 * 60);
    assert_eq!(candidates.len(), 2);
    assert_eq!(candidates[0].0, Platform::Netease);
    assert_eq!(candidates[1].0, Platform::Tencent);
}

#[test]
fn expiry_is_exact() {
    let mut store = CookieStore::default();
    store.set(tencent(Some(100)));
    assert!(!store.is_expired_at(Platform::Tencent, 99));
    assert!(store.is_expired_at(Platform::Tencent, 100));
    assert!(!store.is_expired_at(Platform::Netease, 100));
    assert_eq!(store.login_state_at(Platform::Tencent, 99), "已登录");
    assert_eq!(store.login_state_at(Platform::Tencent, 100), "登录已过期");
    assert_eq!(store.login_state_at(Platform::Netease, 100), "未登录");
    assert_eq!(store.tokens_requiring_refresh_at(90, 9).len(), 0);
    assert_eq!(store.tokens_requiring_refresh_at(90, 10).len(), 1);
    assert_eq!(store.tokens_requiring_refresh_at(i64::MAX, 10).len(), 1);
    store.set(tencent(Some(i64::MAX)));
    assert_eq!(store.tokens_requiring_refresh_at(i64::MAX, 10).len(), 1);
    assert_eq!(store.tokens_requiring_refresh_at(i64::MIN, -10).len(), 0);
    assert_eq!(store.tokens_requiring_refresh(0).len(), 0);
}

#[test]
fn setting_one_platform_leaves_the_other_alone() {
    let mut store = CookieStore::default();
    assert_eq!(store.stored_count(), 0);
    store.set(netease(Some(5)));
    assert_eq!(store.stored_count(), 1);
    assert!(store.stored_token_for(Platform::Tencent).is_none());
    store.set(netease(Some(6)));
    store.set(tencent(None));
    assert_eq!(store.netease.unwrap().expires_at, Some(6));
}

#[test]
fn loading_depends_on_what_was_found() {
    let store = CookieStore::load("c.json", CookieFile::Missing).unwrap();
    assert_eq!(store.version, 1);
    assert_eq!(cookie_version(), 1);
    assert_eq!(store.stored_count(), 0);
    assert_eq!(
        CookieStore::load("c.json", CookieFile::Unreadable).unwrap_err(),
        "无法读取登录信息:c.json"
    );
    assert_eq!(
        CookieStore::load("c.json", CookieFile::Malformed).unwrap_err(),
        "登录信息 JSON 格式无效:c.json"
    );
    let mut saved = CookieStore::default();
    saved.set(netease(None));
    let store = CookieStore::load("c.json", CookieFile::Read(saved)).unwrap();
    assert!(store.token_for(Platform::Netease).is_some());
}

#[test]
fn storing_failures_have_messages() {
    assert_eq!(SaveFailure::NotSerialized.message("c.json"), "无法序列化登录信息");
    assert_eq!(
        SaveFailure::NotWritten.message("c.json"),
        "无法保存登录信息:c.json"
    );
}

fn relocate(events: &[RelocationEvent]) -> Relocation {
    let mut step = Relocation::start(false);
    for event in events {
        step = step.next(*event);
    }
    step
}

#[test]
fn relocation_takes_the_login_file_along() {
    let found = RelocationEvent::Inspected {
        old_is_file: true,
        new_exists: false,
    };
    let ok = RelocationEvent::Succeeded;
    let failed = RelocationEvent::Failed;
    assert_eq!(Relocation::start(true), Relocation::Done);
    assert_eq!(relocate(&[]), Relocation::Inspect);
    assert_eq!(relocate(&[found]), Relocation::Rename);
    assert_eq!(relocate(&[found, ok]), Relocation::Enter);
    assert_eq!(relocate(&[found, ok, ok]), Relocation::Done);
    assert_eq!(relocate(&[found, failed]), Relocation::Copy);
    assert_eq!(
        relocate(&[found, failed, failed]),
        Relocation::Failed(RelocationFailure::NotCopied)
    );
    assert_eq!(relocate(&[found, failed, ok]), Relocation::RemoveOld);
    assert_eq!(relocate(&[found, failed, ok, ok]), Relocation::Enter);
    assert_eq!(relocate(&[found, failed, ok, failed]), Relocation::RemoveCopy);
    for last in [ok, failed] {
        assert_eq!(
            relocate(&[found, failed, ok, failed, last]),
            Relocation::Failed(RelocationFailure::NotRemoved)
        );
    }
    assert_eq!(
        relocate(&[found, ok, failed]),
        Relocation::Failed(RelocationFailure::NotEntered)
    );
    for (old_is_file, new_exists) in [(false, false), (false, true), (true, true)] {
        let event = RelocationEvent::Inspected {
            old_is_file,
            new_exists,
        };
        assert_eq!(relocate(&[event]), Relocation::Enter);
    }
}

#[test]
fn relocation_failures_have_messages() {
    let text = |failure: RelocationFailure| failure.message("old", "new", "dir");
    assert_eq!(
        text(RelocationFailure::NotCopied),
        "无法将登录信息从 old 迁移到 new"
    );
    assert_eq!(text(RelocationFailure::NotRemoved), "无法清理旧登录信息:old");
    assert_eq!(text(RelocationFailure::NotEntered), "无法进入应用程序目录:dir");
}

#[test]
fn clock_counts_seconds_since_the_epoch() {
    assert!(unix_now() > 1_700_000_000);
    assert_eq!(milliseconds_read(Ok(1999)), 1999);
    let now = std::time::SystemTime::now();
    let before = std::time::UNIX_EPOCH.duration_since(now).unwrap_err();
    assert_eq!(milliseconds_read(Err(before)), 0);
    assert_eq!(whole_seconds(0), 0);
    assert_eq!(whole_seconds(1999), 1);
    assert_eq!(whole_seconds(u128::MAX), i64::MAX);
}
