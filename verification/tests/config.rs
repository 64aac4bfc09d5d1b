use cf_stats_exporter::config::GROUP_LIMIT;
use cf_stats_exporter::{load_config, Config, ConfigError};

#[test]
fn both_settings_are_taken_over() {
    assert_eq!(
        load_config(Some("token".to_string()), Some("zone".to_string())),
        Ok(Config { api_token: "token".to_string(), zone_id: "zone".to_string() })
    );
}

#[test]
fn missing_token_is_reported() {
    assert_eq!(load_config(None, Some("zone".to_string())), Err(ConfigError::MissingApiToken));
}

#[test]
fn missing_zone_is_reported() {
    assert_eq!(load_config(Some("token".to_string()), None), Err(ConfigError::MissingZoneId));
}

#[test]
fn missing_token_is_reported_first() {
    assert_eq!(load_config(None, None), Err(ConfigError::MissingApiToken));
}

#[test]
fn empty_settings_count_as_given() {
    assert_eq!(
        load_config(Some(String::new()), Some(String::new())),
        Ok(Config { api_token: String::new(), zone_id: String::new() })
    );
}

#[test]
fn missing_settings_have_their_messages() {
    assert_eq!(
        ConfigError::MissingApiToken.message(),
        "CF_API_TOKEN environment variable is required"
    );
    assert_eq!(
        ConfigError::MissingZoneId.message(),
        "CF_ZONE_ID environment variable is required"
    );
}

#[test]
fn options_are_the_fixed_window_for_the_zone() {
    let config = Config { api_token: "token".to_string(), zone_id: "zone".to_string() };
    let opts = config.options();
    assert_eq!(opts.zone_id, "zone");
    assert_eq!(opts.start_date, "2025-12-17T15:00:00Z");
    assert_eq!(opts.end_date, "2025-12-18T15:00:00Z");
    assert_eq!(opts.limit, 10);
    assert_eq!(GROUP_LIMIT, 10);
}
