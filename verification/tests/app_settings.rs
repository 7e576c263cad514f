use carechords::app_settings::{
    config_sources, ApplicationSettings, ConfigSource, SettingsError, StandardFiles,
    CONFIG_FILE_VARIABLE, ENVIRONMENT_PREFIX, LOCAL_CONFIG_PATH, PACKAGE_CONFIG_PATH,
    SYSTEM_CONFIG_PATH,
};

fn optional(path: &str) -> ConfigSource {
    ConfigSource { path: path.to_string(), required: false }
}

#[test]
fn names_of_the_environment() {
    assert_eq!(CONFIG_FILE_VARIABLE, "CARECHORDS_CONF");
    assert_eq!(ENVIRONMENT_PREFIX, "CARECHORDS");
}

#[test]
fn named_file_is_the_only_source_and_required() {
    let files = StandardFiles { system: true, local: true, package: true };
    assert_eq!(
        config_sources(Some(("/tmp/my.toml".to_string(), true)), files),
        Ok(vec![ConfigSource { path: "/tmp/my.toml".to_string(), required: true }])
    );
}

#[test]
fn named_file_that_is_missing_is_an_error() {
    let files = StandardFiles { system: true, local: false, package: false };
    assert_eq!(
        config_sources(Some(("/tmp/none.toml".to_string(), false)), files),
        Err(SettingsError::MissingConfigFile("/tmp/none.toml".to_string()))
    );
}

#[test]
fn standard_files_are_read_in_order_where_they_exist() {
    assert_eq!(
        config_sources(None, StandardFiles { system: true, local: true, package: true }),
        Ok(vec![
            optional("/etc/carechords.toml"),
            optional("/usr/local/etc/carechords.toml"),
            optional("/opt/carechords/carechords.toml"),
        ])
    );
    assert_eq!(
        config_sources(None, StandardFiles { system: false, local: true, package: false }),
        Ok(vec![optional(LOCAL_CONFIG_PATH)])
    );
    assert_eq!(
        config_sources(None, StandardFiles { system: true, local: false, package: true }),
        Ok(vec![optional(SYSTEM_CONFIG_PATH), optional(PACKAGE_CONFIG_PATH)])
    );
    assert_eq!(
        config_sources(None, StandardFiles { system: false, local: false, package: false }),
        Ok(vec![])
    );
}

#[test]
fn command_line_overrides_configured_values() {
    let configured = ApplicationSettings {
        rtsp_server: "rtsp://a".to_string(),
        monitor_url: "rtsp://m".to_string(),
    };
    assert_eq!(configured.clone().with_overrides(None, None), configured);
    assert_eq!(
        configured.clone().with_overrides(Some("rtsp://b".to_string()), None),
        ApplicationSettings { rtsp_server: "rtsp://b".to_string(), monitor_url: "rtsp://m".to_string() }
    );
    assert_eq!(
        configured.with_overrides(Some("x".to_string()), Some("y".to_string())),
        ApplicationSettings { rtsp_server: "x".to_string(), monitor_url: "y".to_string() }
    );
}
