use vstd::prelude::*;

use crate::config::{AppEnvironment, FORMULA_VERSION, SCHEMA_VERSION};

verus! {

#[derive(Clone, Copy, Debug, PartialEq, Eq)]
pub struct HealthResponse {
    pub status: &'static str,
}

#[derive(Clone, Copy, Debug, PartialEq, Eq)]
pub struct ReadinessResponse {
    pub status: &'static str,
    pub persistence: &'static str,
    pub price_providers: &'static str,
    pub assistant: &'static str,
}

#[derive(Clone, Copy, Debug, PartialEq, Eq)]
pub struct VersionResponse {
    pub version: &'static str,
    pub formula_version: &'static str,
    pub schema_version: &'static str,
}

/// Where projects are kept.
#[derive(Clone, Copy, Debug, PartialEq, Eq, Structural)]
pub enum PersistenceBackend {
    MemoryLocal,
    Cosmos,
}

/// The liveness answer.
pub fn health() -> (r: HealthResponse)
    ensures
        r.status@ == "ok"@,
{
    HealthResponse { status: "ok" }
}

/// The versions of the application, its formulas and its schema.
pub fn version_response(version: &'static str) -> (r: VersionResponse)
    ensures
        r.version@ == version@,
        r.formula_version@ == FORMULA_VERSION@,
        r.schema_version@ == SCHEMA_VERSION@,
{
    VersionResponse { version, formula_version: FORMULA_VERSION, schema_version: SCHEMA_VERSION }
}

pub open spec fn spec_price_provider_status(environment: AppEnvironment, configured: bool) -> Seq<char> {
    if !configured {
        "not_configured"@
    } else if environment == AppEnvironment::Local {
        "frozen_local_fixture"@
    } else {
        "configured"@
    }
}

/// How price providers stand: the frozen fixture locally, live providers
/// elsewhere, or not configured.
pub fn price_provider_status(environment: AppEnvironment, configured: bool) -> (r: &'static str)
    ensures
        r@ == spec_price_provider_status(environment, configured),
{
    match (environment, configured) {
        (AppEnvironment::Local, true) => "frozen_local_fixture",
        (AppEnvironment::Development, true) | (AppEnvironment::Production, true) => "configured",
        (_, false) => "not_configured",
    }
}

/// Ready when persistence answers and price providers are available (always
/// locally, where the frozen fixture serves).
pub open spec fn spec_ready(environment: AppEnvironment, persistence_ready: bool, live_pricing: bool) -> bool {
    persistence_ready && (environment == AppEnvironment::Local || live_pricing)
}

pub open spec fn spec_persistence_status(backend: PersistenceBackend, ready: bool) -> Seq<char> {
    if !ready {
        "unavailable"@
    } else if backend == PersistenceBackend::MemoryLocal {
        "memory_local_only"@
    } else {
        "cosmos_ready"@
    }
}

/// The readiness answer, and whether the service is ready.
pub fn readiness(
    environment: AppEnvironment,
    backend: PersistenceBackend,
    persistence_ready: bool,
    live_pricing: bool,
    assistant_enabled: bool,
) -> (r: (bool, ReadinessResponse))
    ensures
        r.0 == spec_ready(environment, persistence_ready, live_pricing),
        r.1.status@ == (if r.0 { "ready"@ } else { "not_ready"@ }),
        r.1.persistence@ == spec_persistence_status(backend, persistence_ready),
        r.1.price_providers@ == spec_price_provider_status(
            environment,
            environment == AppEnvironment::Local || live_pricing,
        ),
        r.1.assistant@ == (if assistant_enabled { "configured"@ } else { "disabled"@ }),
{
    let providers_ready = environment == AppEnvironment::Local || live_pricing;
    let ready = persistence_ready && providers_ready;
    let persistence = match (backend, persistence_ready) {
        (PersistenceBackend::MemoryLocal, true) => "memory_local_only",
        (PersistenceBackend::Cosmos, true) => "cosmos_ready",
        (_, false) => "unavailable",
    };
    (
        ready,
        ReadinessResponse {
            status: if ready { "ready" } else { "not_ready" },
            persistence,
            price_providers: price_provider_status(environment, providers_ready),
            assistant: if assistant_enabled { "configured" } else { "disabled" },
        },
    )
}

} // verus!
