use azure_sql_tco::digest::sha256_hex_text;
use azure_sql_tco::ids::is_canonical_uuid;
use azure_sql_tco::instant::parse_utc;
use azure_sql_tco::pricing_cache::RefreshLeaseDocument;
use azure_sql_tco::repository::etag;
use azure_sql_tco::text::{bytes_order, is_blank};

#[test]
fn uuids_are_canonical_only_in_lowercase_hyphenated_form() {
    assert!(is_canonical_uuid("01234567-89ab-4cde-8f01-23456789abcd"));
    assert!(!is_canonical_uuid("01234567-89AB-4CDE-8F01-23456789ABCD"));
    assert!(!is_canonical_uuid("0123456789ab4cde8f0123456789abcd"));
    assert!(!is_canonical_uuid("not-a-uuid"));
}

#[test]
fn digests_are_lowercase_hexadecimal_sha256() {
    assert_eq!(sha256_hex_text(b"abc"), "ba7816bf8f01cfea414140de5dae2223b00361a396177a9cb410ff61f20015ad");
    assert_eq!(sha256_hex_text(b""), "e3b0c44298fc1c149afbf4c8996fb92427ae41e4649b934ca495991b7852b855");
}

#[test]
fn instants_render_and_parse_as_rfc3339() {
    let noon = parse_utc("2026-08-10T12:00:00Z").expect("instant");
    assert_eq!(noon, 1_786_363_200_000_000_000);
    assert_eq!(parse_utc("2026-08-10T12:00:00.5Z"), Some(noon + 500_000_000));
    assert_eq!(parse_utc("2026-08-10T14:00:00+02:00"), None);
    assert_eq!(parse_utc("not a time"), None);
    let lease = RefreshLeaseDocument::new(&"a".repeat(64), "11111111-1111-4111-8111-111111111111", noon)
        .expect("lease");
    assert_eq!(lease.leased_at, "2026-08-10T12:00:00Z");
    assert_eq!(lease.expires_at, "2026-08-10T12:02:30Z");
}

#[test]
fn numbers_render_as_decimal_digits() {
    assert_eq!(etag(0), "\"0\"");
    assert_eq!(etag(18_446_744_073_709_551_615), "\"18446744073709551615\"");
}

#[test]
fn text_helpers() {
    assert!(is_blank(" \t\n"));
    assert!(!is_blank(" x "));
    assert_eq!(bytes_order(b"abc", b"abd"), -1);
    assert_eq!(bytes_order(b"ab", b"ab"), 0);
    assert_eq!(bytes_order(b"b", b"abc"), 1);
}
