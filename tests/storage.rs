use vrc_group_manager::error::AppError;
use vrc_group_manager::settings_store::{settings_or_default, AppSettings, UiSettings, UpdateSettings};
use vrc_group_manager::token_store::{
    delete_outcome, delete_token, load_outcome, load_token, save_outcome, save_token,
    StoreFailure, TokenStore,
};
use vrc_group_manager::update_handler::get_endpoint;

/// Runs the store against keyring's in-memory credentials, which keep a
/// secret for as long as the entry that holds it.
fn use_memory_store() {
    keyring::set_default_credential_builder(keyring::mock::default_credential_builder());
}

#[test]
fn store_round_trip() {
    use_memory_store();
    let store = TokenStore::open().unwrap();
    assert_eq!(store.load().unwrap(), None);
    store.save("first").unwrap();
    assert_eq!(store.load().unwrap(), Some("first".to_string()));
    store.save("second").unwrap();
    assert_eq!(store.load().unwrap(), Some("second".to_string()));
    store.delete().unwrap();
    assert_eq!(store.load().unwrap(), None);
    store.delete().unwrap();
    store.delete().unwrap();
}

#[test]
fn store_functions_succeed() {
    use_memory_store();
    save_token("tok123").unwrap();
    assert!(load_token().is_ok());
    delete_token().unwrap();
    delete_token().unwrap();
}

#[test]
fn store_outcomes() {
    assert_eq!(load_outcome(Err(StoreFailure::NoEntry("none".to_string()))).unwrap(), None);
    assert_eq!(load_outcome(Ok("t".to_string())).unwrap(), Some("t".to_string()));
    assert!(delete_outcome(Err(StoreFailure::NoEntry("none".to_string()))).is_ok());
    assert!(delete_outcome(Ok(())).is_ok());
    assert!(save_outcome(Ok(())).is_ok());
    match load_outcome(Err(StoreFailure::Platform("dbus".to_string()))) {
        Err(AppError::Storage(m)) => assert_eq!(m, "Platform error: dbus"),
        other => panic!("unexpected {:?}", other),
    }
    match load_outcome(Err(StoreFailure::Other("bad".to_string()))) {
        Err(AppError::Storage(m)) => assert_eq!(m, "Failed to load token: bad"),
        other => panic!("unexpected {:?}", other),
    }
    match delete_outcome(Err(StoreFailure::Other("bad".to_string()))) {
        Err(AppError::Storage(m)) => assert_eq!(m, "Failed to delete token: bad"),
        other => panic!("unexpected {:?}", other),
    }
    match save_outcome(Err(StoreFailure::NoEntry("gone".to_string()))) {
        Err(AppError::Storage(m)) => assert_eq!(m, "Failed to save token: gone"),
        other => panic!("unexpected {:?}", other),
    }
}

#[test]
fn settings_defaults() {
    let s = AppSettings::default();
    assert_eq!(s.ui.theme, "system");
    assert_eq!(s.ui.language, "ja");
    assert!(s.update.check_on_startup);
    assert!(!s.update.include_prerelease);

    let chosen = AppSettings {
        ui: UiSettings { theme: "dark".to_string(), language: "en".to_string() },
        update: UpdateSettings { check_on_startup: false, include_prerelease: true },
    };
    let kept = settings_or_default(Some(Ok(chosen)));
    assert_eq!(kept.ui.theme, "dark");
    assert!(kept.update.include_prerelease);
    let fallback = settings_or_default(Some(Err("expected value".to_string())));
    assert_eq!(fallback.ui.theme, "system");
    assert_eq!(settings_or_default(None).ui.language, "ja");
}

#[test]
fn update_endpoints() {
    assert!(get_endpoint(true).ends_with("/releases/download/pre-release/latest.json"));
    assert!(get_endpoint(false).ends_with("/releases/latest/download/latest.json"));
}
