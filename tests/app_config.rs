use app_bootstrap::app_config::{
    app_environment_from, environment_variable_name, AppConfigurationBuilder, AppEnvironment,
};

#[test]
fn environment_names_ignore_ascii_case() {
    assert_eq!(AppEnvironment::from_name("dev"), AppEnvironment::Dev);
    assert_eq!(AppEnvironment::from_name("DEV"), AppEnvironment::Dev);
    assert_eq!(AppEnvironment::from_name("Prod"), AppEnvironment::Prod);
    assert_eq!(
        AppEnvironment::from_name("Staging"),
        AppEnvironment::Custom("Staging".to_string())
    );
    assert_eq!(AppEnvironment::from_name(""), AppEnvironment::Custom(String::new()));
}

#[test]
fn environment_names_and_settings_files() {
    assert_eq!(AppEnvironment::Dev.name(), "dev");
    assert_eq!(AppEnvironment::Prod.name(), "prod");
    assert_eq!(AppEnvironment::Custom("qa".to_string()).name(), "qa");
    assert_eq!(AppEnvironment::Prod.settings_file_name(), "app_settings.prod");
    assert_eq!(
        AppEnvironment::Custom("qa".to_string()).settings_file_name(),
        "app_settings.qa"
    );
}

#[test]
fn unset_environment_variable_selects_dev() {
    assert_eq!(app_environment_from(None), AppEnvironment::Dev);
    assert_eq!(app_environment_from(Some("PROD")), AppEnvironment::Prod);
    assert_eq!(app_environment_from(Some("edge")), AppEnvironment::Custom("edge".to_string()));
}

#[test]
fn environment_variable_carries_the_prefix() {
    assert_eq!(environment_variable_name("RUST_APP"), "RUST_APPENVIRONMENT");
    assert_eq!(environment_variable_name(""), "ENVIRONMENT");
}

#[test]
fn builder_defaults_and_overrides() {
    let b = AppConfigurationBuilder::new();
    assert_eq!(b.env_prefix(), "RUST_APP");
    assert_eq!(b.env_separator(), "__");
    assert_eq!(b.environment_variable(), "RUST_APPENVIRONMENT");
    let b = AppConfigurationBuilder::default()
        .with_custom_env_prefix("SVC_".to_string())
        .with_custom_env_separator(".".to_string());
    assert_eq!(b.env_prefix(), "SVC_");
    assert_eq!(b.env_separator(), ".");
    let info = b.into_building_info(AppEnvironment::Prod);
    assert_eq!(info.app_environment, AppEnvironment::Prod);
    assert_eq!(info.env_prefix, "SVC_");
    assert_eq!(info.env_separator, ".");
}
