use restoai::auth::{authorize, validate_token};
use restoai::config::{ApiKey, Config, ConfigError, get_listen_port};
use restoai::hits::{track_metric_counter, HitCounter};
use restoai::keygen::generate_key;
use restoai::strutil::parse_u16;

fn config_with(listen: Option<&str>, keys: Vec<&str>) -> Config {
    Config {
        listen: listen.map(|s| s.to_string()),
        openai_api_key: None,
        api_keys: keys
            .into_iter()
            .map(|k| ApiKey {
                key: k.to_string(),
                name: "n".to_string(),
                description: None,
                permissions: vec!["read".to_string()],
            })
            .collect(),
        llm_backend: "openai".to_string(),
        llm_api_url: "http://localhost/v1".to_string(),
        llm_model_name: "m".to_string(),
    }
}

#[test]
fn validate_token_matches_configured_keys() {
    let config = config_with(None, vec!["nsk-aaa", "nsk-bbb"]);
    assert!(validate_token("nsk-aaa", &config));
    assert!(validate_token("nsk-bbb", &config));
    assert!(!validate_token("nsk-ccc", &config));
    assert!(!validate_token("", &config));
}

#[test]
fn authorize_rejects_empty_tokens() {
    let config = config_with(None, vec![""]);
    // Even a configured empty key never authorizes an empty bearer token.
    assert!(!authorize("", &config));
    let config = config_with(None, vec!["k1"]);
    assert!(authorize("k1", &config));
    assert!(!authorize("k2", &config));
}

#[test]
fn listen_port_explicit_arguments_win() {
    let config = config_with(Some("10.0.0.1:1234"), vec![]);
    assert_eq!(get_listen_port(&config, Some("0.0.0.0"), Some(9000)), Ok(("0.0.0.0", 9000)));
    assert_eq!(get_listen_port(&config, None, Some(9000)), Ok(("127.0.0.1", 9000)));
    assert_eq!(get_listen_port(&config, Some("0.0.0.0"), None), Ok(("0.0.0.0", 8080)));
}

#[test]
fn listen_port_falls_back_to_configuration() {
    let config = config_with(Some("10.0.0.1:1234"), vec![]);
    assert_eq!(get_listen_port(&config, None, None), Ok(("10.0.0.1", 1234)));
    let config = config_with(None, vec![]);
    assert_eq!(get_listen_port(&config, None, None), Ok(("127.0.0.1", 8080)));
    let config = config_with(Some("hostonly"), vec![]);
    assert_eq!(get_listen_port(&config, None, None), Ok(("127.0.0.1", 8080)));
    // Only the piece between the first two colons is the port.
    let config = config_with(Some("a:1:2"), vec![]);
    assert_eq!(get_listen_port(&config, None, None), Ok(("a", 1)));
}

#[test]
fn listen_port_rejects_malformed_port() {
    let config = config_with(Some("host:notaport"), vec![]);
    assert_eq!(get_listen_port(&config, None, None), Err(ConfigError::BadPort));
    let config = config_with(Some("host:"), vec![]);
    assert_eq!(get_listen_port(&config, None, None), Err(ConfigError::BadPort));
    let config = config_with(Some("host:70000"), vec![]);
    assert_eq!(get_listen_port(&config, None, None), Err(ConfigError::BadPort));
}

#[test]
fn parse_u16_accepts_exactly_decimal_u16() {
    assert_eq!(parse_u16("0"), Some(0));
    assert_eq!(parse_u16("8080"), Some(8080));
    assert_eq!(parse_u16("+123"), Some(123));
    assert_eq!(parse_u16("007"), Some(7));
    assert_eq!(parse_u16("65535"), Some(65535));
    assert_eq!(parse_u16("65536"), None);
    assert_eq!(parse_u16(""), None);
    assert_eq!(parse_u16("+"), None);
    assert_eq!(parse_u16("12a"), None);
    assert_eq!(parse_u16("-1"), None);
    assert_eq!(parse_u16(" 1"), None);
    assert_eq!(parse_u16("999999999999999999999"), None);
}

#[test]
fn track_metric_counter_appends_new_token() {
    let out = track_metric_counter(vec![], "tok-a");
    assert_eq!(out.len(), 1);
    assert_eq!(out[0].token, "tok-a");
    assert_eq!(out[0].hits, 1);
}

#[test]
fn track_metric_counter_bumps_existing_token_in_place() {
    let counters = vec![
        HitCounter { token: "tok-a".to_string(), hits: 3 },
        HitCounter { token: "tok-b".to_string(), hits: 9 },
    ];
    let out = track_metric_counter(counters, "tok-b");
    assert_eq!(out.len(), 2);
    assert_eq!(out[0].token, "tok-a");
    assert_eq!(out[0].hits, 3);
    assert_eq!(out[1].token, "tok-b");
    assert_eq!(out[1].hits, 10);
}

#[test]
fn track_metric_counter_bumps_first_duplicate_only() {
    let counters = vec![
        HitCounter { token: "dup".to_string(), hits: 1 },
        HitCounter { token: "dup".to_string(), hits: 5 },
    ];
    let out = track_metric_counter(counters, "dup");
    assert_eq!(out[0].hits, 2);
    assert_eq!(out[1].hits, 5);
}

#[test]
fn track_metric_counter_saturates_at_max() {
    let counters = vec![HitCounter { token: "t".to_string(), hits: u32::MAX }];
    let out = track_metric_counter(counters, "t");
    assert_eq!(out[0].hits, u32::MAX);
}

#[test]
fn generated_keys_have_prefix_and_alphanumeric_body() {
    for _ in 0..16 {
        let key = generate_key();
        assert_eq!(key.len(), 20);
        assert!(key.starts_with("nsk-"));
        assert!(key[4..].chars().all(|c| c.is_ascii_alphanumeric()));
    }
}
