use sticker_packs::config::{ConfigMissing, Settings, Variable};

fn some(value: &str) -> Option<String> {
    Some(value.to_string())
}

#[test]
fn settings_take_what_was_found() {
    let settings = Settings::load(some("s3.example.org"), some("packs"), some("https://hs.example.org"));
    assert_eq!(
        settings,
        Ok(Settings {
            store_server: "s3.example.org".to_string(),
            store_bucket: "packs".to_string(),
            homeserver: "https://hs.example.org".to_string(),
        })
    );
}

#[test]
fn empty_values_are_values() {
    let settings = Settings::load(some(""), some(""), some("")).unwrap();
    assert_eq!(settings.store_server, "");
    assert_eq!(settings.store_bucket, "");
    assert_eq!(settings.homeserver, "");
}

#[test]
fn each_missing_setting_is_told() {
    assert_eq!(
        Settings::load(None, some("b"), some("h")),
        Err(ConfigMissing { variable: Variable::StoreServer })
    );
    assert_eq!(
        Settings::load(some("s"), None, some("h")),
        Err(ConfigMissing { variable: Variable::StoreBucket })
    );
    assert_eq!(
        Settings::load(some("s"), some("b"), None),
        Err(ConfigMissing { variable: Variable::Homeserver })
    );
}

#[test]
fn the_first_missing_setting_is_told() {
    assert_eq!(
        Settings::load(None, None, None),
        Err(ConfigMissing { variable: Variable::StoreServer })
    );
    assert_eq!(
        Settings::load(some("s"), None, None),
        Err(ConfigMissing { variable: Variable::StoreBucket })
    );
    assert_eq!(
        Settings::load(None, some("b"), None),
        Err(ConfigMissing { variable: Variable::StoreServer })
    );
}

#[test]
fn variables_have_their_names() {
    assert_eq!(Variable::StoreServer.name(), "PACKS_S3_SERVER");
    assert_eq!(Variable::StoreBucket.name(), "PACKS_S3_BUCKET");
    assert_eq!(Variable::Homeserver.name(), "HOMESERVER");
}

#[test]
fn missing_setting_message_names_the_variable() {
    assert_eq!(
        ConfigMissing { variable: Variable::StoreServer }.message(),
        "PACKS_S3_SERVER must be set"
    );
    assert_eq!(
        ConfigMissing { variable: Variable::StoreBucket }.message(),
        "PACKS_S3_BUCKET must be set"
    );
    assert_eq!(ConfigMissing { variable: Variable::Homeserver }.message(), "HOMESERVER must be set");
}
