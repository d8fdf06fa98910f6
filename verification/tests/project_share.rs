use azure_sql_tco::decimal::DecimalValue;
use azure_sql_tco::instant::parse_utc;
use azure_sql_tco::project::{EditableProject, ProjectSettings};
use azure_sql_tco::project_share::{
    digest_secret, new_share_document, resolve_document, revocation_check, InMemoryProjectShareRepository,
    ProjectShareCodec,
    ProjectShareCredentials, ProjectShareDocument, ProjectShareError, ProjectShareRepository,
};
use azure_sql_tco::resource::{
    LicenseBasis, OnPremResource, ProjectType, PurchaseOption, Resource, SharedResource, SqlEdition, SqlWorkload,
};

/// Measures share documents by their debug rendering.
struct DebugCodec;

impl ProjectShareCodec for DebugCodec {
    fn share_json_len(&self, document: &ProjectShareDocument) -> Option<usize> {
        Some(format!("{document:?}").len())
    }
}

fn decimal(value: &str) -> DecimalValue {
    DecimalValue::parse(value).expect("decimal")
}

fn project(name: &str) -> EditableProject {
    EditableProject {
        name: name.to_owned(),
        description: None,
        settings: ProjectSettings {
            project_type: ProjectType::OnPrem,
            aws_region: None,
            azure_region: "swedencentral".to_owned(),
            currency: "USD".to_owned(),
            source_compute_discount: DecimalValue::zero(),
            source_license_discount: DecimalValue::zero(),
            source_storage_discount: DecimalValue::zero(),
            azure_compute_discount: DecimalValue::zero(),
            azure_license_discount: DecimalValue::zero(),
            azure_storage_discount: DecimalValue::zero(),
            selected_parity_adjustment: DecimalValue::zero(),
            default_annual_hours: decimal("8760"),
            default_mi_purchase_option: PurchaseOption::Payg,
            enterprise_license_sa_usd_per_two_core_pack: None,
            standard_license_sa_usd_per_two_core_pack: None,
            remaining_coverage_months: None,
            electricity_rate_usd_per_kwh: Some(decimal("0.12")),
            sql_payg: None,
        },
        resources: vec![Resource::OnPrem(OnPremResource {
            shared: SharedResource {
                id: 0x77,
                workload_name: "SQL Server".to_owned(),
                server_name: None,
                quantity: 1,
                source_ram_gb_per_instance: decimal("64"),
                annual_hours_per_instance: decimal("8760"),
            },
            sql: SqlWorkload {
                sql_edition: SqlEdition::Enterprise,
                license_basis: LicenseBasis::LicenseIncluded,
                sql_data_gb_per_instance: decimal("500"),
                mi_purchase_option: PurchaseOption::Payg,
            },
            source_vcpu: 16,
            licensable_cores: 16,
            source_max_iops: 20_000,
            hardware_capex_usd: decimal("10000"),
            depreciation_years: decimal("5"),
            average_power_kw_override: None,
        })],
        aws_price_snapshot_id: None,
        azure_price_snapshot_id: None,
    }
}

#[test]
fn shares_require_the_secret_and_owner_scoped_revocation() {
    let mut repository = InMemoryProjectShareRepository::new(DebugCodec);
    let source_project_id = 0x1111;
    let created = repository.create("entra:tenant:owner", source_project_id, project("Shared")).expect("create share");

    assert_eq!(repository.resolve(&created.credentials).expect("resolve share").name, "Shared");
    let wrong_secret = ProjectShareCredentials { share_id: created.credentials.share_id, secret: created.credentials.secret ^ 1 };
    assert!(matches!(repository.resolve(&wrong_secret), Err(ProjectShareError::NotFound)));

    repository.revoke_project("entra:tenant:owner", source_project_id).expect("revoke project shares");
    assert!(matches!(repository.resolve(&created.credentials), Err(ProjectShareError::NotFound)));
    assert!(matches!(
        repository.revoke("entra:tenant:other", source_project_id, created.credentials.share_id),
        Err(ProjectShareError::NotFound)
    ));
}

#[test]
fn expired_shares_are_rejected() {
    let now = parse_utc("2023-11-14T22:13:20Z").expect("valid timestamp");
    let credentials = ProjectShareCredentials { share_id: 0x2222, secret: 0x3333 };
    let document = new_share_document(&DebugCodec, "entra:tenant:owner", 0x4444, project("Expired"), &credentials, now)
        .expect("create share document");
    let thirty_days: i128 = 30 * 86_400 * 1_000_000_000;
    let size = DebugCodec.share_json_len(&document);

    assert!(matches!(
        resolve_document(&document, &credentials, now + thirty_days, size),
        Err(ProjectShareError::Expired)
    ));
}

#[test]
fn shares_expire_thirty_days_after_creation() {
    let now = parse_utc("2026-08-01T00:00:00Z").expect("valid timestamp");
    let credentials = ProjectShareCredentials { share_id: 0x5555, secret: 0x6666 };
    let mut repository = InMemoryProjectShareRepository::new(DebugCodec);
    let created = repository.create_at("owner", 0x7777, project("Later"), credentials, now).expect("create");
    assert_eq!(created.expires_at, "2026-08-31T00:00:00Z");

    let before_expiry = parse_utc("2026-08-30T23:59:59Z").expect("valid timestamp");
    assert_eq!(repository.resolve_at(&credentials, before_expiry).expect("open").name, "Later");
    let at_expiry = parse_utc("2026-08-31T00:00:00Z").expect("valid timestamp");
    assert!(matches!(repository.resolve_at(&credentials, at_expiry), Err(ProjectShareError::Expired)));
    assert!(matches!(repository.resolve_at(&credentials, before_expiry), Err(ProjectShareError::NotFound)));
}

#[test]
fn only_the_owner_revokes_a_share() {
    let now = parse_utc("2026-08-01T00:00:00Z").expect("valid timestamp");
    let credentials = ProjectShareCredentials { share_id: 0x8888, secret: 0x9999 };
    let mut repository = InMemoryProjectShareRepository::new(DebugCodec);
    repository.create_at("owner", 0xaaaa, project("Kept"), credentials, now).expect("create");

    assert!(matches!(repository.revoke("owner", 0xbbbb, 0x8888), Err(ProjectShareError::NotFound)));
    assert!(repository.resolve_at(&credentials, now).is_ok());
    assert!(repository.revoke("owner", 0xaaaa, 0x8888).is_ok());
    assert!(matches!(repository.resolve_at(&credentials, now), Err(ProjectShareError::NotFound)));
}

#[test]
fn secret_digests_are_sha256_of_the_uuid_bytes() {
    assert_eq!(digest_secret(0), "374708fff7719dd5979ec875d56cd2286f6d3cf7ec317a3b25632aab28ec37bb");
    assert_eq!(digest_secret(1).len(), 64);
    assert_ne!(digest_secret(1), digest_secret(2));
}

#[test]
fn a_stored_share_is_revoked_only_by_its_owner_for_its_project() {
    let credentials = ProjectShareCredentials { share_id: 0x5555, secret: 0x6666 };
    let now = parse_utc("2026-08-01T00:00:00Z").expect("timestamp");
    let document = new_share_document(&DebugCodec, "entra:tenant:owner", 0x4444, project("Shared"), &credentials, now)
        .expect("share document");
    let size = DebugCodec.share_json_len(&document);
    assert!(revocation_check(&document, "entra:tenant:owner", 0x4444, 0x5555, size).is_ok());
    assert!(matches!(
        revocation_check(&document, "entra:tenant:other", 0x4444, 0x5555, size),
        Err(ProjectShareError::NotFound)
    ));
    assert!(matches!(
        revocation_check(&document, "entra:tenant:owner", 0x4445, 0x5555, size),
        Err(ProjectShareError::NotFound)
    ));
    assert!(matches!(
        revocation_check(&document, "entra:tenant:owner", 0x4444, 0x5556, size),
        Err(ProjectShareError::Unavailable)
    ));
}
