use azure_sql_tco::config::{
    app_environment, assistant_request_quota, assistant_settings, cosmos_settings, positive_u32,
    provider_response_limit, validate_provider_refresh_quota, AppEnvironment, ConfigError, FOUNDRY_API_VERSION,
    MAX_PROVIDER_REFRESHES_PER_HOUR,
};

#[test]
fn non_local_mode_requires_an_allowlisted_cosmos_endpoint() {
    assert!(matches!(
        cosmos_settings(AppEnvironment::Development, None, None),
        Err(ConfigError::MissingCosmosSettings)
    ));
    assert!(matches!(
        cosmos_settings(
            AppEnvironment::Development,
            Some("https://example.invalid/".to_owned()),
            Some("southafricanorth".to_owned()),
        ),
        Err(ConfigError::InvalidCosmosEndpoint)
    ));

    let settings = cosmos_settings(
        AppEnvironment::Production,
        Some("https://tco.documents.azure.com/".to_owned()),
        Some("southafricanorth".to_owned()),
    )
    .expect("valid production Cosmos settings")
    .expect("Cosmos settings");
    assert_eq!(settings.application_region, "southafricanorth");
}

#[test]
fn local_mode_rejects_ignored_cosmos_settings() {
    assert!(matches!(
        cosmos_settings(
            AppEnvironment::Local,
            Some("https://tco.documents.azure.com/".to_owned()),
            Some("southafricanorth".to_owned()),
        ),
        Err(ConfigError::CosmosSettingsInLocalEnvironment)
    ));
}

#[test]
fn provider_response_limit_is_bounded() {
    assert_eq!(provider_response_limit(None).expect("default response limit"), 64 * 1024 * 1024);
    assert_eq!(provider_response_limit(Some("1048576")).expect("minimum response limit"), 1024 * 1024);
    assert!(matches!(provider_response_limit(Some("1048575")), Err(ConfigError::InvalidProviderResponseLimit)));
    assert!(matches!(provider_response_limit(Some("268435457")), Err(ConfigError::InvalidProviderResponseLimit)));
}

#[test]
fn provider_refresh_quota_is_bounded() {
    assert!(matches!(validate_provider_refresh_quota(1), Ok(1)));
    assert!(matches!(
        validate_provider_refresh_quota(MAX_PROVIDER_REFRESHES_PER_HOUR),
        Ok(MAX_PROVIDER_REFRESHES_PER_HOUR)
    ));
    assert!(matches!(validate_provider_refresh_quota(0), Err(ConfigError::InvalidQuota)));
    assert!(matches!(
        validate_provider_refresh_quota(MAX_PROVIDER_REFRESHES_PER_HOUR + 1),
        Err(ConfigError::InvalidQuota)
    ));
}

#[test]
fn assistant_is_off_by_default_and_rejects_ignored_settings() {
    assert_eq!(
        assistant_settings(AppEnvironment::Production, None, None, None, None, None).expect("disabled by default"),
        None
    );
    assert!(matches!(
        assistant_settings(
            AppEnvironment::Production,
            Some("false"),
            Some("https://tco.openai.azure.com/".to_owned()),
            None,
            None,
            None,
        ),
        Err(ConfigError::AssistantSettingsWhileDisabled)
    ));
}

#[test]
fn enabled_assistant_requires_the_pinned_private_data_plane_contract() {
    let settings = assistant_settings(
        AppEnvironment::Production,
        Some("true"),
        Some("https://tco.services.ai.azure.com/".to_owned()),
        Some("tco-model-router".to_owned()),
        Some(FOUNDRY_API_VERSION.to_owned()),
        Some("3"),
    )
    .expect("valid settings")
    .expect("enabled assistant");
    assert_eq!(settings.deployment, "tco-model-router");
    assert_eq!(settings.concurrency, 3);

    assert!(matches!(
        assistant_settings(
            AppEnvironment::Local,
            Some("true"),
            Some("https://tco.services.ai.azure.com/".to_owned()),
            Some("tco-model-router".to_owned()),
            Some(FOUNDRY_API_VERSION.to_owned()),
            None,
        ),
        Err(ConfigError::AssistantInLocalEnvironment)
    ));
    assert!(matches!(
        assistant_settings(
            AppEnvironment::Production,
            Some("true"),
            Some("https://example.invalid/".to_owned()),
            Some("tco-model-router".to_owned()),
            Some(FOUNDRY_API_VERSION.to_owned()),
            None,
        ),
        Err(ConfigError::InvalidFoundryEndpoint)
    ));
}

#[test]
fn cosmos_region_must_be_short_alphanumeric_text() {
    assert!(matches!(
        cosmos_settings(
            AppEnvironment::Production,
            Some("https://tco.documents.azure.com/".to_owned()),
            Some("south-africa".to_owned()),
        ),
        Err(ConfigError::InvalidAzureRegion)
    ));
    assert!(matches!(
        cosmos_settings(
            AppEnvironment::Production,
            Some("https://tco.documents.azure.com/".to_owned()),
            Some(String::new()),
        ),
        Err(ConfigError::InvalidAzureRegion)
    ));
}

#[test]
fn quotas_default_when_absent_and_must_be_positive() {
    assert_eq!(positive_u32(None, 60), Ok(60));
    assert_eq!(positive_u32(Some("5"), 60), Ok(5));
    assert_eq!(positive_u32(Some("0"), 60), Err(ConfigError::InvalidQuota));
    assert_eq!(positive_u32(Some("five"), 60), Err(ConfigError::InvalidQuota));
}

#[test]
fn assistant_request_quota_is_one_to_sixty() {
    assert_eq!(assistant_request_quota(None), Ok(10));
    assert_eq!(assistant_request_quota(Some("60")), Ok(60));
    assert_eq!(assistant_request_quota(Some("61")), Err(ConfigError::InvalidAssistantRequestQuota));
    assert_eq!(assistant_request_quota(Some("0")), Err(ConfigError::InvalidAssistantRequestQuota));
}

#[test]
fn environments_are_named_exactly() {
    assert_eq!(app_environment(Some("local")), Ok(AppEnvironment::Local));
    assert_eq!(app_environment(Some("production")), Ok(AppEnvironment::Production));
    assert_eq!(app_environment(Some("Production")), Err(ConfigError::InvalidEnvironment));
}

#[test]
fn quota_text_is_read_as_an_unsigned_integer() {
    assert_eq!(positive_u32(Some("+7"), 60), Ok(7));
    assert_eq!(positive_u32(Some("007"), 60), Ok(7));
    assert_eq!(positive_u32(Some("4294967295"), 60), Ok(4294967295));
    assert_eq!(positive_u32(Some("4294967296"), 60), Err(ConfigError::InvalidQuota));
    assert_eq!(positive_u32(Some("-1"), 60), Err(ConfigError::InvalidQuota));
    assert_eq!(positive_u32(Some("+"), 60), Err(ConfigError::InvalidQuota));
    assert_eq!(positive_u32(Some(""), 60), Err(ConfigError::InvalidQuota));
    assert_eq!(positive_u32(Some(" 7"), 60), Err(ConfigError::InvalidQuota));
}
