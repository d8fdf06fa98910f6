use azure_sql_tco::calculator_launch::{
    launch_etag, manifest_sha256, validate_manifest, CalculatorDeploymentModel, CalculatorExpectedPublicAnnual,
    CalculatorHardwareFamily, CalculatorLaunchClock, CalculatorLaunchError, CalculatorLaunchRepository,
    CalculatorLaunchStatus, CalculatorManifest, CalculatorManifestItem, CalculatorProduct, CalculatorPurchaseOption,
    CalculatorServiceTier, InMemoryCalculatorLaunchRepository, NewCalculatorLaunch, SystemCalculatorLaunchClock, CALCULATOR_CONTRACT_VERSION,
    CALCULATOR_MANIFEST_VERSION,
};
use azure_sql_tco::decimal::DecimalValue;
use azure_sql_tco::instant::parse_utc;

struct FixedClock(i128);

impl FixedClock {
    fn new() -> Self {
        FixedClock(parse_utc("2026-08-23T12:00:00Z").expect("timestamp"))
    }
}

impl CalculatorLaunchClock for FixedClock {
    fn now(&self) -> i128 {
        self.0
    }
}

fn decimal(value: &str) -> DecimalValue {
    DecimalValue::parse(value).expect("decimal")
}

fn uuid(text: &str) -> u128 {
    uuid::Uuid::parse_str(text).expect("UUID").as_u128()
}

fn manifest() -> CalculatorManifest {
    CalculatorManifest {
        schema_version: CALCULATOR_MANIFEST_VERSION,
        calculator_contract_version: CALCULATOR_CONTRACT_VERSION.to_owned(),
        calculator_url: "https://azure.microsoft.com/en-us/pricing/calculator/".to_owned(),
        generated_at: "2026-08-23T12:00:00Z".to_owned(),
        currency: "USD".to_owned(),
        locale: "en-US".to_owned(),
        items: vec![CalculatorManifestItem {
            item_key: "001".to_owned(),
            display_name: "Workload 001".to_owned(),
            product: CalculatorProduct::AzureSqlManagedInstance,
            region: "eastus".to_owned(),
            deployment_model: CalculatorDeploymentModel::SingleInstance,
            service_tier: CalculatorServiceTier::NextGenerationGeneralPurpose,
            hardware_family: CalculatorHardwareFamily::PremiumSeries,
            vcores: 8,
            selected_memory_gb: decimal("64"),
            zone_redundant: false,
            quantity: 1,
            hours_per_month: decimal("730"),
            purchase_option: CalculatorPurchaseOption::Payg,
            azure_hybrid_benefit: false,
            data_storage_gb: decimal("256"),
            backup_storage_gb: DecimalValue::zero(),
            expected_public_annual: CalculatorExpectedPublicAnnual {
                compute: decimal("1000"),
                additional_memory: decimal("0"),
                license: decimal("500"),
                storage: decimal("100"),
                total_before_parity: decimal("1600"),
            },
        }],
    }
}

fn manifest_json() -> Vec<u8> {
    br#"{"schema_version":1,"calculator_contract_version":"2026-08-23","calculator_url":"https://azure.microsoft.com/en-us/pricing/calculator/","generated_at":"2026-08-23T12:00:00Z","currency":"USD","locale":"en-US","items":[{"item_key":"001"}]}"#.to_vec()
}

fn new_launch(id: u128) -> NewCalculatorLaunch {
    NewCalculatorLaunch {
        id,
        source_project_id: uuid("44444444-4444-4444-8444-444444444444"),
        source_project_etag: "\"project-1\"".to_owned(),
        source_formula_version: "1.3.0".to_owned(),
        source_azure_snapshot_id: "azure-snapshot".to_owned(),
        manifest: manifest(),
        manifest_json: manifest_json(),
    }
}

#[test]
fn exactly_one_companion_instance_claims_a_launch() {
    let mut repository = InMemoryCalculatorLaunchRepository::with_clock(FixedClock::new());
    let launch_id = uuid("01234567-89ab-4cde-8f01-23456789abcd");
    repository.create("owner", new_launch(launch_id)).expect("create");
    let first = uuid("11111111-1111-4111-8111-111111111111");
    let second = uuid("22222222-2222-4222-8222-222222222222");

    let left = repository.claim("owner", launch_id, first, "1.0.0");
    let right = repository.claim("owner", launch_id, second, "1.0.0");

    let outcomes = [left, right];
    assert_eq!(outcomes.iter().filter(|result| result.is_ok()).count(), 1);
    assert_eq!(
        outcomes.iter().filter(|result| matches!(result, Err(CalculatorLaunchError::Conflict))).count(),
        1
    );
}

#[test]
fn acknowledgement_purges_manifest_and_is_idempotent_for_the_claimant() {
    let mut repository = InMemoryCalculatorLaunchRepository::with_clock(FixedClock::new());
    let launch_id = uuid("55555555-5555-4555-8555-555555555555");
    let instance_id = uuid("66666666-6666-4666-8666-666666666666");
    repository.create("owner", new_launch(launch_id)).expect("create");
    let claimed = repository.claim("owner", launch_id, instance_id, "1.0.0").expect("claim");

    repository.acknowledge("owner", launch_id, instance_id, &claimed.etag).expect("acknowledge");
    repository.acknowledge("owner", launch_id, instance_id, &claimed.etag).expect("idempotent acknowledgement");

    assert_eq!(
        repository.claim("owner", launch_id, instance_id, "1.0.0").err(),
        Some(CalculatorLaunchError::Conflict)
    );
    let document = repository.get("owner", launch_id).expect("tombstone");
    assert_eq!(document.status, CalculatorLaunchStatus::Consumed);
    assert!(document.manifest.is_none());
    assert!(document.source_project_id.is_none());
}

#[test]
fn repeating_a_create_returns_the_ready_launch_and_a_second_launch_conflicts() {
    let mut repository = InMemoryCalculatorLaunchRepository::with_clock(FixedClock::new());
    let launch_id = uuid("77777777-7777-4777-8777-777777777777");
    let created = repository.create("owner", new_launch(launch_id)).expect("create");
    assert!(created.created);
    assert_eq!(created.document.etag, "\"calculator-launch-1\"");
    assert_eq!(created.document.claim_expires_at, "2026-08-23T12:10:00Z");

    let repeated = repository.create("owner", new_launch(launch_id)).expect("repeat");
    assert!(!repeated.created);
    assert_eq!(repeated.document.id, launch_id);

    let other = uuid("88888888-8888-4888-8888-888888888888");
    assert_eq!(repository.create("owner", new_launch(other)).err(), Some(CalculatorLaunchError::Conflict));
    assert!(repository.create("another-owner", new_launch(other)).is_ok());
}

#[test]
fn claims_are_owner_scoped_and_acknowledgement_needs_the_current_etag() {
    let mut repository = InMemoryCalculatorLaunchRepository::with_clock(FixedClock::new());
    let launch_id = uuid("99999999-9999-4999-8999-999999999999");
    let instance_id = uuid("aaaaaaaa-aaaa-4aaa-8aaa-aaaaaaaaaaaa");
    repository.create("owner", new_launch(launch_id)).expect("create");

    assert_eq!(
        repository.claim("intruder", launch_id, instance_id, "1.0.0").err(),
        Some(CalculatorLaunchError::NotFound)
    );
    let claimed = repository.claim("owner", launch_id, instance_id, "1.0.0").expect("claim");
    assert_eq!(claimed.etag, "\"calculator-launch-2\"");
    assert_eq!(claimed.companion_version.as_deref(), Some("1.0.0"));
    assert_eq!(
        repository.acknowledge("owner", launch_id, instance_id, "\"calculator-launch-1\"").err(),
        Some(CalculatorLaunchError::PreconditionFailed)
    );
}

#[test]
fn launches_expire_ten_minutes_after_creation() {
    let created_at = parse_utc("2026-08-23T12:00:00Z").expect("timestamp");
    let mut repository = InMemoryCalculatorLaunchRepository::with_clock(FixedClock(created_at));
    let launch_id = uuid("bbbbbbbb-bbbb-4bbb-8bbb-bbbbbbbbbbbb");
    repository.create_at("owner", new_launch(launch_id), created_at).expect("create");

    let later = parse_utc("2026-08-23T12:10:00Z").expect("timestamp");
    assert_eq!(
        repository.claim_at("owner", launch_id, 1, "1.0.0", later).err(),
        Some(CalculatorLaunchError::Expired)
    );
}

#[test]
fn purging_a_project_drops_its_open_launches() {
    let mut repository = InMemoryCalculatorLaunchRepository::with_clock(FixedClock::new());
    let launch_id = uuid("cccccccc-cccc-4ccc-8ccc-cccccccccccc");
    repository.create("owner", new_launch(launch_id)).expect("create");

    repository.purge_project("owner", uuid("44444444-4444-4444-8444-444444444444")).expect("purge");

    assert!(repository.get("owner", launch_id).is_none());
}

#[test]
fn manifests_are_checked_and_digested() {
    assert_eq!(validate_manifest(&manifest(), &manifest_json()), Ok(()));
    let mut wrong_currency = manifest();
    wrong_currency.currency = "EUR".to_owned();
    assert_eq!(validate_manifest(&wrong_currency, &manifest_json()), Err(CalculatorLaunchError::InvalidManifest));
    assert_eq!(
        validate_manifest(&manifest(), &vec![b' '; 262_145]),
        Err(CalculatorLaunchError::PayloadTooLarge)
    );
    assert_eq!(manifest_sha256(b"abc"), "ba7816bf8f01cfea414140de5dae2223b00361a396177a9cb410ff61f20015ad");
    assert_eq!(launch_etag(7), "\"calculator-launch-7\"");
}

#[test]
fn system_clock_reads_an_instant_after_the_epoch() {
    let now = SystemCalculatorLaunchClock.now();
    assert!(now > 0);
}
