use inboxly_ui::account_id::{account_id_from_email, compose_account_namespace};

#[test]
fn account_id_from_email_is_deterministic() {
    let a = account_id_from_email("alice@example.com");
    let b = account_id_from_email("alice@example.com");
    let c = account_id_from_email("bob@example.com");
    assert_eq!(a, b);
    assert_ne!(a, c);
}

#[test]
fn account_ids_are_version_5_uuids_not_the_namespace() {
    let id = account_id_from_email("alice@example.com");
    assert_eq!(id.0[6] >> 4, 5);
    assert_eq!(id.0[8] & 0xc0, 0x80);
    assert_ne!(id.0, compose_account_namespace());
}

#[test]
fn account_namespace_bytes() {
    assert_eq!(
        compose_account_namespace(),
        [0xa4, 0xb3, 0xc4, 0xd5, 0xe6, 0xf7, 0x4a, 0x8b, 0x9c, 0x0d, 0x1e, 0x2f, 0x3a, 0x4b, 0x5c, 0x6d]
    );
}
