use azure_sql_tco::privacy_consent::{
    new_document, new_document_at, validate_document, InMemoryPrivacyConsentRepository, PrivacyConsentError,
    PrivacyConsentProfile, PrivacyConsentRepository, CURRENT_PRIVACY_NOTICE_VERSION, PRIVACY_CONSENT_DOCUMENT_ID,
};

#[test]
fn consent_is_owner_scoped_and_versioned() {
    let mut repository = InMemoryPrivacyConsentRepository::new();
    let record = repository
        .save(
            "entra:tenant-a:user-a",
            PrivacyConsentProfile {
                display_name: Some("Synthetic User".to_owned()),
                email_address: Some("synthetic@example.com".to_owned()),
                allow_contact: true,
            },
        )
        .expect("save consent");

    assert_eq!(record.notice_version, CURRENT_PRIVACY_NOTICE_VERSION);
    assert_eq!(record.display_name.as_deref(), Some("Synthetic User"));
    assert_eq!(record.email_address.as_deref(), Some("synthetic@example.com"));
    assert!(record.allow_contact);
    assert!(repository.get("entra:tenant-b:user-a").expect("read other owner").is_none());
}

#[test]
fn email_is_not_retained_without_contact_permission() {
    let mut repository = InMemoryPrivacyConsentRepository::new();
    let record = repository
        .save(
            "entra:tenant-a:user-a",
            PrivacyConsentProfile {
                display_name: None,
                email_address: Some("discard@example.com".to_owned()),
                allow_contact: false,
            },
        )
        .expect("save consent");

    assert_eq!(record.email_address, None);
    assert!(!record.allow_contact);
}

#[test]
fn a_saved_record_is_read_back_and_replaced_by_the_next_save() {
    let mut repository = InMemoryPrivacyConsentRepository::new();
    let profile = |name: &str| PrivacyConsentProfile {
        display_name: Some(name.to_owned()),
        email_address: None,
        allow_contact: false,
    };
    repository.save_at("owner", profile("First"), "2026-08-11T10:00:00Z".to_owned()).expect("first save");
    repository.save_at("owner", profile("Second"), "2026-08-11T11:00:00Z".to_owned()).expect("second save");

    let record = repository.get("owner").expect("read").expect("record");
    assert_eq!(record.display_name.as_deref(), Some("Second"));
    assert_eq!(record.accepted_at, "2026-08-11T11:00:00Z");
    assert_eq!(record.id, PRIVACY_CONSENT_DOCUMENT_ID);
}

#[test]
fn contact_without_an_email_or_an_owner_is_invalid() {
    let wants_contact = PrivacyConsentProfile { display_name: None, email_address: None, allow_contact: true };
    assert_eq!(new_document("owner", wants_contact.clone()).err(), Some(PrivacyConsentError::InvalidRecord));
    let silent = PrivacyConsentProfile { display_name: None, email_address: None, allow_contact: false };
    assert_eq!(new_document("", silent).err(), Some(PrivacyConsentError::InvalidRecord));
}

#[test]
fn records_of_another_owner_are_invalid() {
    let record = new_document_at(
        "owner-a",
        PrivacyConsentProfile { display_name: None, email_address: None, allow_contact: false },
        "2026-08-11T10:00:00Z".to_owned(),
    )
    .expect("record");
    assert_eq!(validate_document(&record, "owner-a"), Ok(()));
    assert_eq!(validate_document(&record, "owner-b"), Err(PrivacyConsentError::InvalidRecord));
}
