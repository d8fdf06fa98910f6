use azure_sql_tco::decimal::DecimalValue;
use azure_sql_tco::engine::CalculationRevision;
use azure_sql_tco::project::{EditableProject, ProjectDocument, ProjectSettings};
use azure_sql_tco::repository::{
    current_timestamp, enforce_document_size, etag, listing_of, replacement_document, same_pricing_inputs, validate_stored_document,
    with_response_etag, InMemoryProjectRepository, ProjectDocumentCodec, ProjectRepository, RepositoryError,
    MAX_PROJECT_DOCUMENT_BYTES, PROJECT_DOCUMENT_TYPE,
};
use azure_sql_tco::resource::{
    LicenseBasis, OnPremResource, ProjectType, PurchaseOption, Resource, SharedResource, SqlEdition, SqlWorkload,
};

/// Measures documents by their debug rendering, which, like their JSON form,
/// spells out every field.
struct DebugCodec;

impl ProjectDocumentCodec for DebugCodec {
    fn document_json_len(&self, document: &ProjectDocument) -> Option<usize> {
        Some(format!("{document:?}").len())
    }

    fn pricing_inputs_json(
        &self,
        settings: &ProjectSettings,
        resources: &Vec<Resource>,
        aws_price_snapshot_id: &Option<String>,
        azure_price_snapshot_id: &Option<String>,
    ) -> Option<Vec<u8>> {
        Some(format!("{:?}", (settings, resources, aws_price_snapshot_id, azure_price_snapshot_id)).into_bytes())
    }
}

fn decimal(value: &str) -> DecimalValue {
    DecimalValue::parse(value).expect("decimal")
}

fn project(name: &str) -> EditableProject {
    EditableProject {
        name: name.to_owned(),
        description: None,
        settings: ProjectSettings {
            project_type: ProjectType::OnPrem,
            aws_region: None,
            azure_region: "swedencentral".to_owned(),
            currency: "USD".to_owned(),
            source_compute_discount: DecimalValue::zero(),
            source_license_discount: DecimalValue::zero(),
            source_storage_discount: DecimalValue::zero(),
            azure_compute_discount: DecimalValue::zero(),
            azure_license_discount: DecimalValue::zero(),
            azure_storage_discount: DecimalValue::zero(),
            selected_parity_adjustment: DecimalValue::zero(),
            default_annual_hours: decimal("8760"),
            default_mi_purchase_option: PurchaseOption::Payg,
            enterprise_license_sa_usd_per_two_core_pack: Some(decimal("1000")),
            standard_license_sa_usd_per_two_core_pack: Some(decimal("500")),
            remaining_coverage_months: Some(12),
            electricity_rate_usd_per_kwh: Some(decimal("0.12")),
            sql_payg: None,
        },
        resources: vec![Resource::OnPrem(OnPremResource {
            shared: SharedResource {
                id: 0x1234,
                workload_name: "Synthetic workload".to_owned(),
                server_name: None,
                quantity: 1,
                source_ram_gb_per_instance: decimal("128"),
                annual_hours_per_instance: decimal("8760"),
            },
            sql: SqlWorkload {
                sql_edition: SqlEdition::Enterprise,
                license_basis: LicenseBasis::Byol,
                sql_data_gb_per_instance: decimal("1024"),
                mi_purchase_option: PurchaseOption::Payg,
            },
            source_vcpu: 16,
            licensable_cores: 16,
            source_max_iops: 20_000,
            hardware_capex_usd: decimal("20000"),
            depreciation_years: decimal("5"),
            average_power_kw_override: None,
        })],
        aws_price_snapshot_id: None,
        azure_price_snapshot_id: None,
    }
}

fn revision(label: &str) -> CalculationRevision {
    CalculationRevision { formula_version: label.to_owned() }
}

fn document(project: EditableProject) -> ProjectDocument {
    ProjectDocument {
        id: 0xabcd,
        document_type: PROJECT_DOCUMENT_TYPE.to_owned(),
        owner_id: "entra:tenant:user".to_owned(),
        name: project.name,
        description: project.description,
        settings: project.settings,
        resources: project.resources,
        aws_price_snapshot_id: project.aws_price_snapshot_id,
        azure_price_snapshot_id: project.azure_price_snapshot_id,
        latest_calculation_revision: None,
        formula_version: "1.3.0".to_owned(),
        schema_version: "1.0.0".to_owned(),
        created_at: "2026-07-31T00:00:00Z".to_owned(),
        updated_at: "2026-07-31T00:00:00Z".to_owned(),
        etag: etag(1),
    }
}

#[test]
fn project_operations_are_owner_scoped() {
    let mut repository = InMemoryProjectRepository::new(DebugCodec);
    let created = repository.create("entra:tenant-a:user", project("Private project"), None).expect("create project");

    assert!(matches!(repository.get("entra:tenant-b:user", created.id), Err(RepositoryError::NotFound)));
    assert!(repository.list("entra:tenant-b:user").expect("list projects").is_empty());
    assert!(matches!(repository.delete("entra:tenant-b:user", created.id), Err(RepositoryError::NotFound)));
    assert_eq!(repository.get("entra:tenant-a:user", created.id).expect("owner can read").name, "Private project");
}

#[test]
fn updates_require_the_current_etag_and_invalidate_results() {
    let mut repository = InMemoryProjectRepository::new(DebugCodec);
    let created = repository.create("entra:tenant:user", project("Version one"), None).expect("create project");

    assert!(matches!(
        repository.update("entra:tenant:user", created.id, "\"stale\"", project("Rejected"), None),
        Err(RepositoryError::PreconditionFailed)
    ));

    let updated = repository
        .update("entra:tenant:user", created.id, &created.etag, project("Version two"), None)
        .expect("update project");

    assert_eq!(updated.name, "Version two");
    assert_ne!(updated.etag, created.etag);
    assert_eq!(updated.created_at, created.created_at);
}

#[test]
fn serialized_documents_at_the_limit_are_rejected() {
    let mut repository = InMemoryProjectRepository::new(DebugCodec);
    let mut oversized = project("Oversized");
    if let Resource::OnPrem(resource) = &mut oversized.resources[0] {
        resource.shared.workload_name = "x".repeat(MAX_PROJECT_DOCUMENT_BYTES);
    }

    assert!(matches!(
        repository.create("entra:tenant:user", oversized, None),
        Err(RepositoryError::PayloadTooLarge)
    ));
}

#[test]
fn metadata_edits_retain_revisions_and_pricing_edits_invalidate_them() {
    let mut repository = InMemoryProjectRepository::new(DebugCodec);
    let original = project("Original");
    let created = repository
        .create("entra:tenant:user", original.clone(), Some(revision("original revision")))
        .expect("create project");

    let mut renamed = original.clone();
    renamed.name = "Renamed".to_owned();
    let metadata_update = repository
        .update("entra:tenant:user", created.id, &created.etag, renamed.clone(), None)
        .expect("rename project");
    assert_eq!(
        metadata_update.latest_calculation_revision.as_ref().expect("retained revision").formula_version,
        "original revision"
    );

    renamed.settings.selected_parity_adjustment = DecimalValue::new(1, 1);
    let pricing_update = repository
        .update("entra:tenant:user", created.id, &metadata_update.etag, renamed, None)
        .expect("update pricing inputs");
    assert!(pricing_update.latest_calculation_revision.is_none());
}

#[test]
fn only_pricing_inputs_control_revision_retention() {
    let stored_project = project("Original");
    let mut renamed = project("Renamed");
    renamed.resources = stored_project.resources.clone();
    let stored = document(stored_project);
    let codec = DebugCodec;
    let inputs = |p: &EditableProject| {
        codec.pricing_inputs_json(&p.settings, &p.resources, &p.aws_price_snapshot_id, &p.azure_price_snapshot_id)
    };
    let stored_inputs = codec.pricing_inputs_json(
        &stored.settings,
        &stored.resources,
        &stored.aws_price_snapshot_id,
        &stored.azure_price_snapshot_id,
    );

    assert!(same_pricing_inputs(stored_inputs.clone(), inputs(&renamed)).expect("compare metadata edit"));

    renamed.settings.default_annual_hours = decimal("4000");
    assert!(!same_pricing_inputs(stored_inputs, inputs(&renamed)).expect("compare pricing edit"));
}

#[test]
fn stored_documents_must_match_the_owner_and_id() {
    let document = document(project("Owner scoped"));
    assert!(validate_stored_document(&document, "entra:tenant:user", Some(document.id), Some(100)).is_ok());
    assert!(matches!(
        validate_stored_document(&document, "entra:other:user", Some(document.id), Some(100)),
        Err(RepositoryError::Unavailable)
    ));
    assert!(matches!(
        validate_stored_document(&document, "entra:tenant:user", Some(0x9999), Some(100)),
        Err(RepositoryError::Unavailable)
    ));
}

#[test]
fn documents_are_listed_newest_first_then_by_id() {
    let mut repository = InMemoryProjectRepository::new(DebugCodec);
    repository.create_at("owner", 3, project("Old"), None, "2026-07-01T00:00:00Z".to_owned()).expect("old");
    repository.create_at("owner", 2, project("New B"), None, "2026-07-02T00:00:00Z".to_owned()).expect("new b");
    repository.create_at("owner", 1, project("New A"), None, "2026-07-02T00:00:00Z".to_owned()).expect("new a");
    repository.create_at("other", 4, project("Other"), None, "2026-07-03T00:00:00Z".to_owned()).expect("other");

    let names: Vec<String> = repository.list("owner").expect("list").into_iter().map(|d| d.name).collect();
    assert_eq!(names, vec!["New A".to_owned(), "New B".to_owned(), "Old".to_owned()]);
}

#[test]
fn entity_tags_count_versions_and_deleted_projects_are_gone() {
    let mut repository = InMemoryProjectRepository::new(DebugCodec);
    let created = repository.create_at("owner", 9, project("P"), None, "2026-07-01T00:00:00Z".to_owned()).expect("create");
    assert_eq!(created.etag, "\"1\"");
    let updated = repository
        .update_at("owner", 9, "\"1\"", project("Q"), None, "2026-07-02T00:00:00Z".to_owned())
        .expect("update");
    assert_eq!(updated.etag, "\"2\"");
    assert_eq!(updated.created_at, "2026-07-01T00:00:00Z");
    assert_eq!(updated.updated_at, "2026-07-02T00:00:00Z");

    repository.delete("owner", 9).expect("delete");
    assert!(matches!(repository.get("owner", 9), Err(RepositoryError::NotFound)));
    assert!(matches!(repository.delete("owner", 9), Err(RepositoryError::NotFound)));
}

#[test]
fn sizes_at_the_limit_are_too_large() {
    assert_eq!(enforce_document_size(Some(MAX_PROJECT_DOCUMENT_BYTES - 1)), Ok(()));
    assert_eq!(enforce_document_size(Some(MAX_PROJECT_DOCUMENT_BYTES)), Err(RepositoryError::PayloadTooLarge));
    assert_eq!(enforce_document_size(None), Err(RepositoryError::Unavailable));
}

#[test]
fn a_replacement_needs_the_current_entity_tag_and_keeps_revisions_only_for_unchanged_inputs() {
    let mut current = document(project("Before"));
    current.latest_calculation_revision = Some(revision("stored"));

    assert_eq!(
        replacement_document(&DebugCodec, &current, "\"stale\"", project("After"), None, "2026-08-01T00:00:00Z".to_owned(), String::new())
            .err(),
        Some(RepositoryError::PreconditionFailed)
    );

    let renamed = replacement_document(
        &DebugCodec,
        &current,
        &etag(1),
        project("After"),
        Some(revision("new")),
        "2026-08-01T00:00:00Z".to_owned(),
        String::new(),
    )
    .expect("replacement");
    assert_eq!(renamed.name, "After");
    assert_eq!(renamed.updated_at, "2026-08-01T00:00:00Z");
    assert_eq!(renamed.created_at, current.created_at);
    assert_eq!(renamed.latest_calculation_revision.map(|r| r.formula_version), Some("stored".to_owned()));

    let mut repriced = project("After");
    repriced.settings.azure_compute_discount = decimal("0.1");
    let replaced = replacement_document(
        &DebugCodec,
        &current,
        &etag(1),
        repriced,
        Some(revision("new")),
        "2026-08-01T00:00:00Z".to_owned(),
        String::new(),
    )
    .expect("replacement");
    assert_eq!(replaced.latest_calculation_revision.map(|r| r.formula_version), Some("new".to_owned()));
}

#[test]
fn a_stored_document_takes_the_entity_tag_of_the_response() {
    let stored = with_response_etag(document(project("Stored")), "\"0x1\"".to_owned()).expect("tagged");
    assert_eq!(stored.etag, "\"0x1\"");
    assert_eq!(with_response_etag(document(project("Stored")), String::new()).err(), Some(RepositoryError::Unavailable));
}

#[test]
fn a_store_listing_is_checked_and_put_in_listing_order() {
    let mut older = document(project("Older"));
    older.id = 2;
    older.updated_at = "2026-07-30T00:00:00Z".to_owned();
    let mut newer = document(project("Newer"));
    newer.id = 3;
    newer.updated_at = "2026-07-31T00:00:00Z".to_owned();
    let mut same_time = document(project("Same time"));
    same_time.id = 1;
    same_time.updated_at = "2026-07-31T00:00:00Z".to_owned();

    let listed = listing_of(&DebugCodec, "entra:tenant:user", vec![older.clone(), newer.clone(), same_time.clone()])
        .expect("listing");
    assert_eq!(listed.iter().map(|d| d.id).collect::<Vec<_>>(), vec![1, 3, 2]);

    assert_eq!(
        listing_of(&DebugCodec, "entra:other:user", vec![older.clone()]).err(),
        Some(RepositoryError::Unavailable)
    );
    let mut untagged = newer.clone();
    untagged.etag = String::new();
    assert_eq!(listing_of(&DebugCodec, "entra:tenant:user", vec![untagged]).err(), Some(RepositoryError::Unavailable));
    assert_eq!(
        listing_of(&DebugCodec, "entra:tenant:user", vec![older.clone(), older]).err(),
        Some(RepositoryError::Unavailable)
    );
}

#[test]
fn current_timestamp_reads_back_as_a_utc_instant() {
    let text = current_timestamp().expect("the clock has a rendering");
    assert!(text.len() >= 20);
    assert!(text.ends_with('Z'));
    assert!(azure_sql_tco::instant::parse_utc(&text).is_some());
}
