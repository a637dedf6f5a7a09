//! Protocol model: the platform credential store seen as a map from
//! storage key to secret, the effect of each vault operation on it, and
//! the laws that the three-operation protocol obeys.
//!
//! The bridge itself is stateless; the entries live in the platform
//! facility.  This module states what that facility's documented
//! semantics — upsert on store, lookup on retrieve, removal on erase —
//! give the caller once every operation addresses the store through the
//! derived storage key.

use crate::resolver::storage_key_spec;
use vstd::prelude::*;

verus! {

/// The entries the platform store holds for one installation: storage key
/// to secret payload.
pub type VaultContents = Map<Seq<char>, Seq<char>>;

/// The contents after `Store(identifier, secret)`: the entry under the
/// derived storage key is created or overwritten (upsert).
pub open spec fn store_transition(
    contents: VaultContents,
    service: Seq<char>,
    identifier: Seq<char>,
    secret: Seq<char>,
) -> VaultContents {
    contents.insert(storage_key_spec(service, identifier), secret)
}

/// What `Retrieve(identifier)` yields: the payload under the derived
/// storage key, or nothing when no such entry exists.
pub open spec fn retrieve_result(
    contents: VaultContents,
    service: Seq<char>,
    identifier: Seq<char>,
) -> Option<Seq<char>> {
    if contents.contains_key(storage_key_spec(service, identifier)) {
        Some(contents[storage_key_spec(service, identifier)])
    } else {
        None
    }
}

/// The contents after `Erase(identifier)`: the entry under the derived
/// storage key is gone, irreversibly.
pub open spec fn erase_transition(
    contents: VaultContents,
    service: Seq<char>,
    identifier: Seq<char>,
) -> VaultContents {
    contents.remove(storage_key_spec(service, identifier))
}

/// Store then retrieve, with the same identifier, yields exactly the
/// stored secret.
pub proof fn lemma_store_then_retrieve(
    contents: VaultContents,
    service: Seq<char>,
    identifier: Seq<char>,
    secret: Seq<char>,
)
    ensures
        retrieve_result(store_transition(contents, service, identifier, secret), service, identifier)
            == Some(secret),
{
}

/// Retrieve on an identifier for which the store holds no entry yields
/// nothing.
pub proof fn lemma_retrieve_never_stored(
    contents: VaultContents,
    service: Seq<char>,
    identifier: Seq<char>,
)
    requires
        !contents.contains_key(storage_key_spec(service, identifier)),
    ensures
        retrieve_result(contents, service, identifier) is None,
{
}

/// Two stores under one identifier then a retrieve yield the second
/// secret: the later write wins.
pub proof fn lemma_last_write_wins(
    contents: VaultContents,
    service: Seq<char>,
    identifier: Seq<char>,
    secret1: Seq<char>,
    secret2: Seq<char>,
)
    ensures
        retrieve_result(
            store_transition(
                store_transition(contents, service, identifier, secret1),
                service,
                identifier,
                secret2,
            ),
            service,
            identifier,
        ) == Some(secret2),
{
}

/// Store, erase, then retrieve, all under one identifier, yields nothing:
/// the erased entry is gone.
pub proof fn lemma_store_erase_retrieve(
    contents: VaultContents,
    service: Seq<char>,
    identifier: Seq<char>,
    secret: Seq<char>,
)
    ensures
        retrieve_result(
            erase_transition(
                store_transition(contents, service, identifier, secret),
                service,
                identifier,
            ),
            service,
            identifier,
        ) is None,
{
}

/// A store under one identifier never disturbs what a retrieve under a
/// distinct identifier yields: distinct identifiers derive distinct
/// storage keys, so their entries are independent.
pub proof fn lemma_distinct_identifiers_independent(
    contents: VaultContents,
    service: Seq<char>,
    identifier1: Seq<char>,
    identifier2: Seq<char>,
    secret: Seq<char>,
)
    requires
        identifier1 != identifier2,
    ensures
        retrieve_result(
            store_transition(contents, service, identifier1, secret),
            service,
            identifier2,
        ) == retrieve_result(contents, service, identifier2),
{
    crate::resolver::lemma_storage_key_injective(service, identifier1, identifier2);
}

} // verus!
