use azure_sql_tco::config::AppEnvironment;
use azure_sql_tco::health::{health, price_provider_status, readiness, version_response, PersistenceBackend};

#[test]
fn readiness_reports_provider_configuration_by_environment() {
    assert_eq!(price_provider_status(AppEnvironment::Local, true), "frozen_local_fixture");
    assert_eq!(price_provider_status(AppEnvironment::Development, true), "configured");
    assert_eq!(price_provider_status(AppEnvironment::Production, true), "configured");
    assert_eq!(price_provider_status(AppEnvironment::Production, false), "not_configured");
}

#[test]
fn local_memory_store_is_ready_without_live_pricing() {
    let (ready, response) = readiness(AppEnvironment::Local, PersistenceBackend::MemoryLocal, true, false, false);
    assert!(ready);
    assert_eq!(response.status, "ready");
    assert_eq!(response.persistence, "memory_local_only");
    assert_eq!(response.price_providers, "frozen_local_fixture");
    assert_eq!(response.assistant, "disabled");
}

#[test]
fn production_without_live_pricing_or_persistence_is_not_ready() {
    let (ready, response) = readiness(AppEnvironment::Production, PersistenceBackend::Cosmos, true, false, true);
    assert!(!ready);
    assert_eq!(response.status, "not_ready");
    assert_eq!(response.persistence, "cosmos_ready");
    assert_eq!(response.price_providers, "not_configured");
    assert_eq!(response.assistant, "configured");

    let (ready, response) = readiness(AppEnvironment::Production, PersistenceBackend::Cosmos, false, true, false);
    assert!(!ready);
    assert_eq!(response.persistence, "unavailable");
    assert_eq!(response.price_providers, "configured");
}

#[test]
fn health_and_version_answer() {
    assert_eq!(health().status, "ok");
    let version = version_response("1.2.3");
    assert_eq!(version.version, "1.2.3");
    assert_eq!(version.formula_version, "1.3.0");
    assert_eq!(version.schema_version, "1.0.0");
}
