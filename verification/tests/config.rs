use codext_pool::config::{
    env_non_empty, host_label, workspace_tag, Config, PoolEnvironment, StoredConfig,
};

fn environment() -> PoolEnvironment {
    PoolEnvironment {
        url: None,
        key: None,
        account: None,
        device_id: None,
        hostname: None,
        computername: None,
        workspace: None,
    }
}

fn text(value: &str) -> Option<String> {
    Some(value.to_string())
}

fn stored(base_url: &str, key: &str, account: Option<&str>) -> Option<StoredConfig> {
    Some(StoredConfig {
        base_url: base_url.to_string(),
        key: key.to_string(),
        account: account.map(str::to_string),
    })
}

/// The stored file is enough. A trailing slash would double the one of the path
/// prefix, and white space around the key would be sent.
#[test]
fn the_pool_is_configurable_without_environment_variables() {
    let file: serde_json::Value =
        serde_json::from_str(r#"{"base_url": "https://pool.example.com:844/", "key": "  k-123  "}"#)
            .expect("write config");
    let field = |name: &str| file[name].as_str().expect("a text").to_string();
    let stored = StoredConfig {
        base_url: field("base_url"),
        key: field("key"),
        account: file["account"].as_str().map(str::to_string),
    };
    let config = Config::load(Some(stored), &environment()).expect("config should be found");
    assert_eq!(config.base_url, "https://pool.example.com:844");
    assert_eq!(config.key, "k-123");
    assert_eq!(config.want_account, None);
}

/// Two runs in one directory share a lease.
#[test]
fn the_device_id_is_stable_across_runs_in_the_same_workspace() {
    let first = workspace_tag(Some("/home/me/project"));
    let second = workspace_tag(Some("/home/me/project"));
    assert_eq!(first, second);
    assert_eq!(first.len(), 16);
    assert!(first.chars().all(|c| c.is_ascii_digit() || ('a'..='f').contains(&c)));
    assert_ne!(first, workspace_tag(Some("/home/me/other")));
}

/// Without a configuration there is no pool, which is no error.
#[test]
fn an_unconfigured_home_leaves_upstream_auth_alone() {
    assert!(Config::load(None, &environment()).is_none());
}

#[test]
fn a_tag_is_the_fnv_hash_of_the_path() {
    assert_eq!(workspace_tag(Some("")), "cbf29ce484222325");
    assert_eq!(workspace_tag(Some("/")), "af63a24c860189fe");
    assert_eq!(workspace_tag(Some("a")), "af63dc4c8601ec8c");
    assert_eq!(workspace_tag(Some("foobar")), "85944171f73967e8");
    assert_eq!(workspace_tag(Some("/home/me/project")), "6afe337369685c16");
    assert_eq!(workspace_tag(Some("/工作")), "3d2d028d9b4992a2");
    assert_eq!(workspace_tag(None), "498865c7bd1f3959");
    assert_eq!(workspace_tag(None), workspace_tag(Some("unknown")));
}

#[test]
fn the_host_is_named_by_the_first_variable_that_is_set() {
    assert_eq!(host_label(&text("one"), &text("two")), "one");
    assert_eq!(host_label(&None, &text("two")), "two");
    assert_eq!(host_label(&None, &None), "codext");
    assert_eq!(host_label(&text(""), &text("two")), "");
}

#[test]
fn the_device_id_is_host_and_tag_unless_it_is_set() {
    let env = PoolEnvironment {
        url: text("https://pool"),
        key: text("k"),
        hostname: text("box"),
        workspace: text("foobar"),
        ..environment()
    };
    let config = Config::load(None, &env).expect("configured");
    assert_eq!(config.device_id, "box-85944171f73967e8");
    let named = PoolEnvironment { device_id: text("  dev-7 "), ..env };
    assert_eq!(Config::load(None, &named).expect("configured").device_id, "dev-7");
    let blank = PoolEnvironment { device_id: text("   "), ..named };
    assert_eq!(Config::load(None, &blank).expect("configured").device_id, "box-85944171f73967e8");
}

#[test]
fn the_environment_comes_before_the_file() {
    let env = PoolEnvironment {
        url: text(" https://env.example.com// "),
        key: text("\tenv-key\n"),
        account: text(" env@example.com "),
        ..environment()
    };
    let config = Config::load(stored("https://file", "file-key", Some("file@example.com")), &env)
        .expect("configured");
    assert_eq!(config.base_url, "https://env.example.com");
    assert_eq!(config.key, "env-key");
    assert_eq!(config.want_account.as_deref(), Some("env@example.com"));

    let blank = PoolEnvironment { url: text(" "), key: text(""), account: text("\n"), ..env };
    let config = Config::load(stored("https://file", "file-key", Some(" file@example.com ")), &blank)
        .expect("configured");
    assert_eq!(config.base_url, "https://file");
    assert_eq!(config.key, "file-key");
    assert_eq!(config.want_account.as_deref(), Some("file@example.com"));
}

#[test]
fn half_a_configuration_is_none() {
    let url_only = PoolEnvironment { url: text("https://env"), ..environment() };
    let key_only = PoolEnvironment { key: text("k"), ..environment() };
    assert!(Config::load(None, &url_only).is_none());
    assert!(Config::load(None, &key_only).is_none());
    assert!(Config::load(stored("https://file", "  ", None), &environment()).is_none());
    assert!(Config::load(stored(" ", "k", None), &environment()).is_none());
    // A file with a blank key counts as none at all.
    assert!(Config::load(stored("https://file", "", None), &key_only).is_none());
    let mixed = Config::load(stored("https://file", "file-key", Some("  ")), &key_only)
        .expect("configured");
    assert_eq!((mixed.base_url.as_str(), mixed.key.as_str()), ("https://file", "k"));
    assert_eq!(mixed.want_account, None);
}

#[test]
fn a_blank_variable_counts_as_not_set() {
    assert_eq!(env_non_empty(&None), None);
    assert_eq!(env_non_empty(&text("")), None);
    assert_eq!(env_non_empty(&text(" \u{3000}\t")), None);
    assert_eq!(env_non_empty(&text(" a b ")).as_deref(), Some("a b"));
}
