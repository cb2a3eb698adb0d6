//! Deterministic account ids for drafts and sent mail, derived from the
//! account's email address.

use vstd::prelude::*;

verus! {

/// The id under which drafts and sent mail of an account are stored: the
/// bytes of a UUID.
#[derive(Debug, Clone, Copy, PartialEq, Eq, Hash)]
pub struct AccountId(pub [u8; 16]);

/// The version 5 UUID `uuid` computes from a namespace and a name (the
/// name's UTF-8 bytes hashed with the namespace's bytes).
pub uninterp spec fn uuid_v5(namespace: Seq<u8>, name: Seq<char>) -> Seq<u8>;

/// `Uuid::new_v5` on the namespace's bytes and the UTF-8 bytes of `name`.
#[verifier::external_body]
fn uuid_v5_bytes(namespace: [u8; 16], name: &str) -> (r: [u8; 16])
    ensures
        r@ == uuid_v5(namespace@, name@),
{
    *uuid::Uuid::new_v5(&uuid::Uuid::from_bytes(namespace), name.as_bytes()).as_bytes()
}

/// The namespace of account ids, `a4b3c4d5-e6f7-4a8b-9c0d-1e2f3a4b5c6d`.
/// Changing it would orphan every stored draft.
pub fn compose_account_namespace() -> (r: [u8; 16])
    ensures
        r@ == compose_account_namespace_spec(),
{
    let r: [u8; 16] = [
        0xa4, 0xb3, 0xc4, 0xd5, 0xe6, 0xf7, 0x4a, 0x8b, 0x9c, 0x0d, 0x1e, 0x2f, 0x3a, 0x4b, 0x5c, 0x6d,
    ];
    assert(r@ =~= compose_account_namespace_spec());
    r
}

/// The account id of an email address: the version 5 UUID of the address
/// in the account namespace, so the same address always gives the same id.
pub fn account_id_from_email(email: &str) -> (id: AccountId)
    ensures
        id.0@ == uuid_v5(compose_account_namespace_spec(), email@),
{
    AccountId(uuid_v5_bytes(compose_account_namespace(), email))
}

/// The bytes of the account namespace.
pub open spec fn compose_account_namespace_spec() -> Seq<u8> {
    seq![0xa4u8, 0xb3, 0xc4, 0xd5, 0xe6, 0xf7, 0x4a, 0x8b, 0x9c, 0x0d, 0x1e, 0x2f, 0x3a, 0x4b, 0x5c, 0x6d]
}

} // verus!
