//! Identity resolver: derives the storage key that addresses one entry in
//! the platform credential store from the service name and the caller's
//! public identifier.

use vstd::prelude::*;
use vstd::string::StringExecFns;

verus! {

/// The storage key for one vault entry: the service name, a separating
/// `'-'`, and the caller-supplied identifier, concatenated.
pub open spec fn storage_key_spec(service: Seq<char>, identifier: Seq<char>) -> Seq<char> {
    service + seq!['-'] + identifier
}

/// Derives the storage key `<service>-<identifier>`.
///
/// Pure: the same service and identifier always derive the same key.
pub fn derive_storage_key(service: &str, identifier: &str) -> (r: String)
    ensures
        r@ == storage_key_spec(service@, identifier@),
{
    let mut key = String::new();
    key.append(service);
    key.append("-");
    key.append(identifier);
    proof {
        reveal_strlit("-");
        assert("-"@ =~= seq!['-']);
        assert(key@ =~= storage_key_spec(service@, identifier@));
    }
    key
}

/// Two identifiers derive the same storage key for a given service if and
/// only if they are the same identifier: the derivation is deterministic
/// and injective, so store, retrieve and erase calls made with one
/// identifier always address one platform entry, and calls made with
/// distinct identifiers never collide.
pub proof fn lemma_storage_key_injective(service: Seq<char>, id1: Seq<char>, id2: Seq<char>)
    ensures
        storage_key_spec(service, id1) == storage_key_spec(service, id2) <==> id1 == id2,
{
    if storage_key_spec(service, id1) == storage_key_spec(service, id2) {
        let k1 = storage_key_spec(service, id1);
        let k2 = storage_key_spec(service, id2);
        assert(k1.len() == service.len() + 1 + id1.len());
        assert(k2.len() == service.len() + 1 + id2.len());
        assert forall|j: int| 0 <= j < id1.len() implies id1[j] == id2[j] by {
            assert(k1[service.len() + 1 + j] == id1[j]);
            assert(k2[service.len() + 1 + j] == id2[j]);
        }
        assert(id1 =~= id2);
    }
}

} // verus!
