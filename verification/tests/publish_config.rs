use m2s2_cli::publish::config::{DevToConfig, EnvValues, PublishConfig};
use std::collections::HashMap;

fn env_map(pairs: &[(&str, &str)]) -> HashMap<String, String> {
    pairs.iter().map(|(k, v)| (k.to_string(), v.to_string())).collect()
}

#[test]
fn fills_in_a_wholly_absent_section_from_env() {
    let mut config = PublishConfig::default();
    let env = env_map(&[("M2S2_PUBLISH_DEVTO_API_KEY", "from-env")]);
    config.apply_env_fallbacks(|k| env.get(k).cloned()).unwrap();
    assert_eq!(config.devto.unwrap().api_key, "from-env");
}

#[test]
fn does_not_override_a_section_already_present_from_toml() {
    let mut config = PublishConfig {
        devto: Some(DevToConfig { api_key: "from-toml".into() }),
        ..Default::default()
    };
    let env = env_map(&[("M2S2_PUBLISH_DEVTO_API_KEY", "from-env")]);
    config.apply_env_fallbacks(|k| env.get(k).cloned()).unwrap();
    assert_eq!(config.devto.unwrap().api_key, "from-toml");
}

#[test]
fn hashnode_needs_both_env_vars_together() {
    let mut config = PublishConfig::default();
    let env = env_map(&[("M2S2_PUBLISH_HASHNODE_TOKEN", "t")]);
    let err = config.apply_env_fallbacks(|k| env.get(k).cloned()).unwrap_err();
    assert!(err.to_string().contains("must be set together"));
}

#[test]
fn platform_picks_up_optional_path_and_body_command_from_env_too() {
    let mut config = PublishConfig::default();
    let env = env_map(&[
        ("M2S2_PUBLISH_PLATFORM_ENDPOINT", "https://api.example.com"),
        ("M2S2_PUBLISH_PLATFORM_TOKEN", "t"),
        ("M2S2_PUBLISH_PLATFORM_PATH", "/custom"),
    ]);
    config.apply_env_fallbacks(|k| env.get(k).cloned()).unwrap();
    let platform = config.platform.unwrap();
    assert_eq!(platform.path.as_deref(), Some("/custom"));
    assert_eq!(platform.body_command, None);
}

#[test]
fn no_env_vars_and_no_toml_section_leaves_it_absent() {
    let mut config = PublishConfig::default();
    config.apply_env_fallbacks(|_| None).unwrap();
    assert!(config.devto.is_none());
    assert!(config.hashnode.is_none());
    assert!(config.platform.is_none());
}

#[test]
fn partial_platform_credentials_are_an_error_after_earlier_sections_filled() {
    let mut config = PublishConfig::default();
    let env = env_map(&[
        ("M2S2_PUBLISH_DEVTO_API_KEY", "k"),
        ("M2S2_PUBLISH_PLATFORM_TOKEN", "t"),
    ]);
    let err = config.apply_env_fallbacks(|k| env.get(k).cloned()).unwrap_err();
    assert_eq!(
        err,
        "partial platform credentials in the environment — both $M2S2_PUBLISH_PLATFORM_ENDPOINT and $M2S2_PUBLISH_PLATFORM_TOKEN must be set together"
    );
    assert_eq!(config.devto.unwrap().api_key, "k");
    assert!(config.platform.is_none());
}

#[test]
fn env_values_fill_hashnode_pair() {
    let mut config = PublishConfig::default();
    let env = EnvValues {
        devto_api_key: None,
        hashnode_token: Some("tok".into()),
        hashnode_publication_id: Some("pub".into()),
        platform_endpoint: None,
        platform_token: None,
        platform_path: None,
        platform_body_command: None,
    };
    config.apply_env_values(env).unwrap();
    let h = config.hashnode.unwrap();
    assert_eq!(h.token, "tok");
    assert_eq!(h.publication_id, "pub");
    assert!(config.devto.is_none());
}
