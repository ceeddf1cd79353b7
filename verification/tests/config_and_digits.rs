use mailinator_rs::config::{ClientConfig, ConfigError, EnvCfg};
use mailinator_rs::digits::{dec_to_u64, u64_to_dec};
use mailinator_rs::http::full_url;

#[test]
fn env_cfg_defaults_the_base_url() {
    let cfg = EnvCfg::resolve(None, None);
    assert_eq!(cfg.api_url, "https://mailinator.com");
    assert_eq!(cfg.api_token, None);
    let cfg = EnvCfg::resolve(Some(String::from("https://other.example")), None);
    assert_eq!(cfg.api_url, "https://other.example");
}

#[test]
fn client_config_prefers_explicit_values() {
    let env = EnvCfg {
        api_url: String::from("https://env.example"),
        api_token: Some(String::from("env-token")),
    };
    let cfg = ClientConfig::resolve(
        Some(String::from("https://given.example")),
        Some(String::from("given-token")),
        env,
    )
    .unwrap();
    assert_eq!(cfg.api_url, "https://given.example");
    assert_eq!(cfg.api_token, "given-token");
}

#[test]
fn client_config_falls_back_to_the_environment() {
    let env = EnvCfg {
        api_url: String::from("https://env.example"),
        api_token: Some(String::from("env-token")),
    };
    let cfg = ClientConfig::resolve(None, None, env).unwrap();
    assert_eq!(cfg.api_url, "https://env.example");
    assert_eq!(cfg.api_token, "env-token");
}

#[test]
fn client_config_without_any_token_is_refused() {
    let env = EnvCfg { api_url: String::from("https://env.example"), api_token: None };
    let err = ClientConfig::resolve(None, None, env).unwrap_err();
    assert_eq!(err, ConfigError::MissingApiToken);
}

#[test]
fn full_url_concatenates_base_and_path() {
    assert_eq!(
        full_url("https://mailinator.com", "/api/v2/team/stats"),
        "https://mailinator.com/api/v2/team/stats"
    );
}

#[test]
fn decimal_rendering_is_exact() {
    assert_eq!(u64_to_dec(0), "0");
    assert_eq!(u64_to_dec(7), "7");
    assert_eq!(u64_to_dec(12345678), "12345678");
    assert_eq!(u64_to_dec(u64::MAX), "18446744073709551615");
}

#[test]
fn decimal_reading_accepts_exactly_the_canonical_forms() {
    assert_eq!(dec_to_u64("0"), Some(0));
    assert_eq!(dec_to_u64("12345678"), Some(12345678));
    assert_eq!(dec_to_u64("18446744073709551615"), Some(u64::MAX));
    assert_eq!(dec_to_u64("18446744073709551616"), None);
    assert_eq!(dec_to_u64("007"), None);
    assert_eq!(dec_to_u64(""), None);
    assert_eq!(dec_to_u64("-1"), None);
    assert_eq!(dec_to_u64("1.5"), None);
    assert_eq!(dec_to_u64("twelve"), None);
}
