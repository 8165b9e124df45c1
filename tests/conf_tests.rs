use miniupload::{EnvOverrides, ToolConfig};

fn no_env() -> EnvOverrides {
    EnvOverrides { target: None, folder: None }
}

#[test]
fn verify_get_behaviour() {
    let target = "MY_TARGET";
    let folder = "MY_FOLDER";
    let env_target = "MY_ENV_TARGET";
    let env_folder = "MY_ENV_FOLDER";

    let mut conf: ToolConfig = Default::default();
    conf.update_target(target.to_string());
    conf.update_folder(folder.to_string());

    let env = EnvOverrides {
        target: Some(env_target.to_string()),
        folder: Some(env_folder.to_string()),
    };
    assert_eq!(conf.get_target(&env), env_target.to_string(), "Target read from env");
    assert_eq!(conf.get_folder(&env), env_folder.to_string(), "Folder read from env");

    assert_eq!(conf.get_target(&no_env()), target.to_string(), "Target read from file");
    assert_eq!(conf.get_folder(&no_env()), folder.to_string(), "Folder read from file");
}

#[test]
fn verify_toolconfig_default_version() {
    let default_cfg: ToolConfig = Default::default();
    assert_eq!(default_cfg.version, 0)
}

#[test]
fn verify_toolconfig_default_target() {
    let default_cfg: ToolConfig = Default::default();
    assert_eq!(default_cfg.target, "".to_string())
}

#[test]
fn verify_toolconfig_default_folder() {
    let default_cfg: ToolConfig = Default::default();
    assert_eq!(default_cfg.folder, "".to_string())
}

#[test]
fn verify_get_upload_target_appends_expected() {
    let default_cfg: ToolConfig = Default::default();
    assert_eq!(
        default_cfg.get_upload_target(&no_env()),
        "upload?path=/".to_string()
    );
}

#[test]
fn upload_url_from_persisted_target() {
    let mut cfg = ToolConfig::default();
    cfg.update_target("http://x/".to_string());
    assert_eq!(cfg.get_upload_target(&no_env()), "http://x/upload?path=/");
}

#[test]
fn upload_url_follows_override() {
    let mut cfg = ToolConfig::default();
    cfg.update_target("http://x/".to_string());
    let env = EnvOverrides { target: Some("http://z/".to_string()), folder: None };
    assert_eq!(cfg.get_upload_target(&env), "http://z/upload?path=/");
}

#[test]
fn env_target_overrides_persisted() {
    let mut cfg = ToolConfig::default();
    cfg.update_target("http://x/".to_string());
    let env = EnvOverrides { target: Some("http://y/".to_string()), folder: None };
    assert_eq!(cfg.get_target(&env), "http://y/");
    assert_eq!(cfg.get_folder(&env), "");
}

#[test]
fn empty_env_value_still_overrides() {
    let mut cfg = ToolConfig::default();
    cfg.update_target("http://x/".to_string());
    cfg.update_folder("docs".to_string());
    let env = EnvOverrides { target: Some(String::new()), folder: Some(String::new()) };
    assert_eq!(cfg.get_target(&env), "");
    assert_eq!(cfg.get_folder(&env), "");
}

#[test]
fn updates_touch_one_field() {
    let mut cfg = ToolConfig::default();
    cfg.update_folder("a".to_string());
    assert_eq!(cfg.target, "");
    assert_eq!(cfg.version, 0);
    cfg.update_target("t".to_string());
    assert_eq!(cfg.folder, "a");
    cfg.update_target("u".to_string());
    assert_eq!(cfg.target, "u");
}
