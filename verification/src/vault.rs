//! Vault operations: the three-operation protocol against the platform
//! credential store, and the command boundary that reports every outcome
//! as a uniform envelope.
//!
//! The platform store is reached through the `keyring` crate.  Each call
//! into it stands behind a trusted wrapper; everything around the calls —
//! key derivation, error classification, envelope construction — is
//! verified.

use crate::envelope::KeyResponse;
use crate::envelope::VaultError;
use crate::envelope::completion_envelope;
use crate::envelope::echoes_identifier;
use crate::envelope::reports_failure;
use crate::envelope::retrieval_envelope;
use crate::resolver::derive_storage_key;
use vstd::prelude::*;

verus! {

#[verifier::external_type_specification]
#[verifier::external_body]
pub struct ExEntry(keyring::Entry);

/// Relies on keyring::Entry::new: builds a handle addressing the
/// credential identified by the given service and user names; on failure
/// hands back the platform's error description.
#[verifier::external_body]
fn entry_new(service: &str, user: &str) -> (r: Result<keyring::Entry, String>) {
    match keyring::Entry::new(service, user) {
        Ok(entry) => Ok(entry),
        Err(err) => Err(format!("{}", err)),
    }
}

/// Relies on keyring::Entry::set_password: persists the given payload as
/// the entry's credential, overwriting any prior payload; on failure
/// hands back the platform's error description.
#[verifier::external_body]
fn entry_set_password(entry: &keyring::Entry, payload: &str) -> (r: Result<(), String>) {
    match entry.set_password(payload) {
        Ok(()) => Ok(()),
        Err(err) => Err(format!("{}", err)),
    }
}

/// Relies on keyring::Entry::get_password: reads the entry's persisted
/// payload; on failure — a missing entry included — hands back the
/// platform's error description.
#[verifier::external_body]
fn entry_get_password(entry: &keyring::Entry) -> (r: Result<String, String>) {
    match entry.get_password() {
        Ok(payload) => Ok(payload),
        Err(err) => Err(format!("{}", err)),
    }
}

/// Relies on keyring::Entry::delete_credential: removes the entry's
/// credential from the store; on failure — nothing to delete included —
/// hands back the platform's error description.
#[verifier::external_body]
fn entry_delete_credential(entry: &keyring::Entry) -> (r: Result<(), String>) {
    match entry.delete_credential() {
        Ok(()) => Ok(()),
        Err(err) => Err(format!("{}", err)),
    }
}

/// The credential vault bridge: holds the fixed service name that
/// namespaces this installation's entries in the shared platform store,
/// and nothing else — no entry state lives in the bridge.
pub struct VaultBridge {
    service: String,
}

impl VaultBridge {
    /// The service name this bridge namespaces its entries under.
    pub closed spec fn service_name(&self) -> Seq<char> {
        self.service@
    }

    /// Builds a bridge for the given service name.
    pub fn new(service: String) -> (r: VaultBridge)
        ensures
            r.service_name() == service@,
    {
        VaultBridge { service }
    }

    /// Store: writes `secret` under the storage key derived from
    /// `identifier`, creating or overwriting the platform entry.  A
    /// failure is a handle-creation or a write failure, never anything
    /// else.
    pub fn store(&self, identifier: &str, secret: &str) -> (r: Result<(), VaultError>)
        ensures
            r matches Err(e) ==> e is HandleCreation || e is Write,
    {
        let storage_key = derive_storage_key(self.service.as_str(), identifier);
        match entry_new(self.service.as_str(), storage_key.as_str()) {
            Err(detail) => Err(VaultError::HandleCreation { detail }),
            Ok(entry) => match entry_set_password(&entry, secret) {
                Ok(()) => Ok(()),
                Err(detail) => Err(VaultError::Write { detail }),
            },
        }
    }

    /// Retrieve: reads the payload under the storage key derived from
    /// `identifier`.  A failure is a handle-creation or a read failure —
    /// a missing entry surfaces as the latter — never anything else.
    pub fn retrieve(&self, identifier: &str) -> (r: Result<String, VaultError>)
        ensures
            r matches Err(e) ==> e is HandleCreation || e is Read,
    {
        let storage_key = derive_storage_key(self.service.as_str(), identifier);
        match entry_new(self.service.as_str(), storage_key.as_str()) {
            Err(detail) => Err(VaultError::HandleCreation { detail }),
            Ok(entry) => match entry_get_password(&entry) {
                Ok(payload) => Ok(payload),
                Err(detail) => Err(VaultError::Read { detail }),
            },
        }
    }

    /// Erase: removes the entry under the storage key derived from
    /// `identifier`, irreversibly.  A failure is a handle-creation or a
    /// delete failure — nothing to delete surfaces as the latter — never
    /// anything else.
    pub fn erase(&self, identifier: &str) -> (r: Result<(), VaultError>)
        ensures
            r matches Err(e) ==> e is HandleCreation || e is Delete,
    {
        let storage_key = derive_storage_key(self.service.as_str(), identifier);
        match entry_new(self.service.as_str(), storage_key.as_str()) {
            Err(detail) => Err(VaultError::HandleCreation { detail }),
            Ok(entry) => match entry_delete_credential(&entry) {
                Ok(()) => Ok(()),
                Err(detail) => Err(VaultError::Delete { detail }),
            },
        }
    }

    /// Command `save_private_key`: stores the secret and reports the
    /// outcome.  The envelope echoes the identifier, never carries a
    /// secret, says `"stored"` on success, and on failure carries the
    /// message of a handle-creation or write failure.
    pub fn save_private_key(&self, public_key: &str, private_key: &str) -> (r: KeyResponse)
        ensures
            echoes_identifier(r, public_key@),
            r.private_key is None,
            r.success ==> r.message@ == "stored"@,
            !r.success ==> exists|e: VaultError|
                #[trigger] reports_failure(r, e) && (e is HandleCreation || e is Write),
    {
        completion_envelope(public_key, "stored", self.store(public_key, private_key))
    }

    /// Command `get_private_key`: retrieves the secret and reports the
    /// outcome.  The envelope echoes the identifier, carries the secret
    /// if and only if it succeeded — and then exactly the retrieved
    /// payload, with message `"retrieved"` — and on failure carries the
    /// message of a handle-creation or read failure.
    pub fn get_private_key(&self, public_key: &str) -> (r: KeyResponse)
        ensures
            echoes_identifier(r, public_key@),
            r.success <==> r.private_key is Some,
            r.success ==> r.message@ == "retrieved"@,
            !r.success ==> exists|e: VaultError|
                #[trigger] reports_failure(r, e) && (e is HandleCreation || e is Read),
    {
        retrieval_envelope(public_key, self.retrieve(public_key))
    }

    /// Command `delete_private_key`: erases the entry and reports the
    /// outcome.  The envelope echoes the identifier, never carries a
    /// secret, says `"deleted"` on success, and on failure carries the
    /// message of a handle-creation or delete failure.
    pub fn delete_private_key(&self, public_key: &str) -> (r: KeyResponse)
        ensures
            echoes_identifier(r, public_key@),
            r.private_key is None,
            r.success ==> r.message@ == "deleted"@,
            !r.success ==> exists|e: VaultError|
                #[trigger] reports_failure(r, e) && (e is HandleCreation || e is Delete),
    {
        completion_envelope(public_key, "deleted", self.erase(public_key))
    }
}

} // verus!
