use azure_sql_tco::decimal::DecimalValue;
use azure_sql_tco::target_selector::{
    select_target, selected_target, CapabilityCatalog, MappingStatus, SelectionReasonCode, ServiceTier,
    StorageEscalation, TargetCandidate, TargetSelectionError, TargetSelectionRequest,
};

fn decimal(value: &str) -> DecimalValue {
    DecimalValue::parse(value).expect("valid decimal")
}

fn catalog(candidates: Vec<TargetCandidate>) -> CapabilityCatalog {
    CapabilityCatalog { schema_version: "test".to_owned(), candidates }
}

fn request(source_max_iops: u64, source_memory_gb: &str, required_storage_gb: &str) -> TargetSelectionRequest<'static> {
    TargetSelectionRequest {
        azure_region: "swedencentral",
        source_vcpu: 8,
        source_memory_gb: decimal(source_memory_gb),
        required_storage_gb: decimal(required_storage_gb),
        source_max_iops,
        workbook_parity_mode: true,
    }
}

fn candidate(
    configuration_key: &str,
    service_tier: ServiceTier,
    vcores: u32,
    included_memory_gb: &str,
    supported_memory_gb: &[&str],
    maximum_storage_gb: Option<&str>,
) -> TargetCandidate {
    TargetCandidate {
        configuration_key: configuration_key.to_owned(),
        azure_region: "swedencentral".to_owned(),
        service_tier,
        hardware_family: "Premium Series".to_owned(),
        vcores,
        zone_redundant: false,
        included_memory_gb: decimal(included_memory_gb),
        supported_memory_gb: supported_memory_gb.iter().map(|value| decimal(value)).collect(),
        storage_architecture: if service_tier == ServiceTier::BusinessCritical {
            "BC local SSD".to_owned()
        } else {
            "Remote LRS".to_owned()
        },
        maximum_storage_gb: maximum_storage_gb.map(decimal),
        source_url: "https://learn.microsoft.com/azure/azure-sql/managed-instance/resource-limits".to_owned(),
        reviewed_date: "2026-07-31".to_owned(),
    }
}

fn memory_optimized_candidate(
    configuration_key: &str,
    service_tier: ServiceTier,
    vcores: u32,
    memory_gb: &str,
    maximum_storage_gb: Option<&str>,
) -> TargetCandidate {
    let mut candidate = candidate(configuration_key, service_tier, vcores, memory_gb, &[memory_gb], maximum_storage_gb);
    candidate.hardware_family = "Premium Series Memory Optimized".to_owned();
    candidate
}

#[test]
fn threshold_and_one_above_select_expected_tiers() {
    let catalog = catalog(vec![
        candidate("nggp-8", ServiceTier::NextGenerationGeneralPurpose, 8, "64", &["64"], Some("1024")),
        candidate("bc-8", ServiceTier::BusinessCritical, 8, "56", &["56", "64"], Some("1024")),
    ]);
    let mut request = request(12_800, "60", "100");

    let at_threshold = select_target(&catalog, request).expect("threshold selection");
    assert_eq!(at_threshold.requested_tier, ServiceTier::NextGenerationGeneralPurpose);
    assert_eq!(at_threshold.selected.expect("NGGP target").configuration_key, "nggp-8");

    request.source_max_iops = 12_801;
    let above_threshold = select_target(&catalog, request).expect("above-threshold selection");
    assert_eq!(above_threshold.requested_tier, ServiceTier::BusinessCritical);
    assert_eq!(above_threshold.selected.expect("BC target").configuration_key, "bc-8");
}

#[test]
fn lack_of_nggp_memory_uses_nggp_capacity_fallback_instead_of_business_critical() {
    let catalog = catalog(vec![
        candidate("nggp-8", ServiceTier::NextGenerationGeneralPurpose, 8, "32", &["32"], Some("1024")),
        candidate("bc-8", ServiceTier::BusinessCritical, 8, "128", &["128"], Some("1024")),
    ]);

    let selection = select_target(&catalog, request(0, "96", "100")).expect("selection");

    assert_eq!(selection.requested_tier, ServiceTier::NextGenerationGeneralPurpose);
    assert_eq!(selection.mapping_status, MappingStatus::Mapped);
    assert_eq!(selection.selected.as_ref().expect("NGGP fallback").configuration_key, "nggp-8");
    assert_eq!(selection.outcome_reasons.len(), 1);
    assert_eq!(selection.outcome_reasons[0].code, SelectionReasonCode::InsufficientMemory);
    assert!(selection.outcome_reasons[0].detail.contains("closest available configuration provides 32 GB"));
}

#[test]
fn very_large_aws_shape_uses_maximum_available_cores_and_memory() {
    let catalog = catalog(vec![
        candidate("nggp-premium-128", ServiceTier::NextGenerationGeneralPurpose, 128, "560", &["560"], Some("32768")),
        memory_optimized_candidate(
            "nggp-memory-optimized-128",
            ServiceTier::NextGenerationGeneralPurpose,
            128,
            "870.4",
            Some("32768"),
        ),
    ]);
    let mut selection_request = request(0, "1536", "100");
    selection_request.source_vcpu = 192;

    let selection = select_target(&catalog, selection_request).expect("selection");
    let selected = selection.selected.as_ref().expect("capacity fallback");

    assert_eq!(selection.mapping_status, MappingStatus::Mapped);
    assert_eq!(selected.configuration_key, "nggp-memory-optimized-128");
    assert_eq!(selected.vcores, 128);
    assert_eq!(selected.selected_memory_gb, decimal("870.4"));
    assert_eq!(selection.outcome_reasons.len(), 2);
    assert!(selection
        .outcome_reasons
        .iter()
        .all(|reason| reason.detail.contains("capacity-limited match has been applied")));
}

#[test]
fn storage_selects_the_next_valid_candidate_in_the_same_tier() {
    let catalog = catalog(vec![
        candidate("nggp-8", ServiceTier::NextGenerationGeneralPurpose, 8, "64", &["64"], Some("512")),
        candidate("nggp-16", ServiceTier::NextGenerationGeneralPurpose, 16, "128", &["128"], Some("4096")),
    ]);

    let selection = select_target(&catalog, request(0, "60", "800")).expect("selection");

    assert_eq!(selection.selected.as_ref().expect("target").configuration_key, "nggp-16");
    assert_eq!(
        selection.storage_escalation,
        Some(StorageEscalation {
            rejected_configuration_key: "nggp-8".to_owned(),
            rejected_maximum_storage_gb: decimal("512"),
            selected_configuration_key: "nggp-16".to_owned()
        })
    );
}

#[test]
fn storage_alone_never_switches_to_business_critical() {
    let catalog = catalog(vec![
        candidate("nggp-8", ServiceTier::NextGenerationGeneralPurpose, 8, "64", &["64"], Some("512")),
        candidate("bc-8", ServiceTier::BusinessCritical, 8, "64", &["64"], Some("4096")),
    ]);

    let selection = select_target(&catalog, request(0, "60", "800")).expect("selection");

    assert_eq!(selection.requested_tier, ServiceTier::NextGenerationGeneralPurpose);
    assert_eq!(selection.mapping_status, MappingStatus::NoMapping);
}

#[test]
fn storage_failure_does_not_fall_back_to_an_undersized_candidate() {
    let catalog = catalog(vec![
        candidate("nggp-4", ServiceTier::NextGenerationGeneralPurpose, 4, "32", &["32"], Some("4096")),
        candidate("nggp-8", ServiceTier::NextGenerationGeneralPurpose, 8, "64", &["64"], Some("512")),
    ]);

    let selection = select_target(&catalog, request(0, "60", "800")).expect("selection");

    assert_eq!(selection.mapping_status, MappingStatus::NoMapping);
    assert!(selection.selected.is_none());
}

#[test]
fn smallest_supported_memory_is_selected_and_additional_memory_is_exact() {
    let catalog = catalog(vec![candidate(
        "nggp-32",
        ServiceTier::NextGenerationGeneralPurpose,
        32,
        "224",
        &["320", "224", "256"],
        None,
    )]);
    let mut selection_request = request(0, "225", "100");
    selection_request.source_vcpu = 32;

    let selection = select_target(&catalog, selection_request).expect("selection");
    let selected = selection.selected.expect("target");

    assert_eq!(selected.selected_memory_gb, decimal("256"));
    assert_eq!(selected.additional_memory_gb, decimal("32"));
}

#[test]
fn selected_target_preserves_zone_redundancy() {
    let mut target = candidate("nggp-zr", ServiceTier::NextGenerationGeneralPurpose, 8, "64", &["64"], None);
    target.zone_redundant = true;

    let selected = selected_target(&target, decimal("64"));

    assert!(selected.zone_redundant);
}

#[test]
fn invalid_requests_are_refused() {
    let catalog = catalog(vec![candidate("nggp-8", ServiceTier::NextGenerationGeneralPurpose, 8, "64", &["64"], None)]);
    let mut zero_cores = request(0, "60", "100");
    zero_cores.source_vcpu = 0;

    assert_eq!(select_target(&catalog, zero_cores).err(), Some(TargetSelectionError::InvalidSourceVcpu));
    assert_eq!(
        select_target(&catalog, request(0, "0", "100")).err(),
        Some(TargetSelectionError::InvalidSourceMemory)
    );
    assert_eq!(
        select_target(&catalog, request(0, "60", "-1")).err(),
        Some(TargetSelectionError::InvalidRequiredStorage)
    );
}

#[test]
fn nggp_iops_limit_scales_with_cores() {
    let catalog = catalog(vec![candidate("nggp-8", ServiceTier::NextGenerationGeneralPurpose, 8, "64", &["64"], None)]);

    let selection = select_target(&catalog, request(0, "60", "100")).expect("selection");

    assert_eq!(selection.nggp_iops_limit, 12_800);
}
