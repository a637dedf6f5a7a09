//! Result envelope and error taxonomy: every vault operation reports its
//! outcome as one flat `KeyResponse`, and every platform failure is first
//! captured as a structured `VaultError` and only turned into message text
//! here, at the boundary that builds the envelope.

use vstd::prelude::*;
use vstd::string::StringExecFns;

verus! {

/// The uniform envelope returned by every vault operation.
///
/// `private_key` is populated only on a successful retrieval; it is always
/// absent on store and erase responses and on every failure.
pub struct KeyResponse {
    pub success: bool,
    pub message: String,
    pub public_key: Option<String>,
    pub private_key: Option<String>,
}

/// The closed set of failure kinds a vault operation can report.  Each
/// carries the platform store's own error description; no secret material
/// is ever part of it.
pub enum VaultError {
    /// The platform facility could not address the namespace/key pair.
    HandleCreation { detail: String },
    /// The store operation could not persist the secret.
    Write { detail: String },
    /// The retrieve operation could not locate or access the entry.
    Read { detail: String },
    /// The erase operation could not remove the entry.
    Delete { detail: String },
}

/// The message text that the envelope carries for each failure kind: a
/// fixed prefix naming the failed step, then the platform error text.
pub open spec fn error_message(e: VaultError) -> Seq<char> {
    match e {
        VaultError::HandleCreation { detail } => "Failed to create keyring entry: "@ + detail@,
        VaultError::Write { detail } => "Failed to store private key: "@ + detail@,
        VaultError::Read { detail } => "Failed to retrieve private key: "@ + detail@,
        VaultError::Delete { detail } => "Failed to delete private key: "@ + detail@,
    }
}

/// The envelope names the identifier the operation was called with.
pub open spec fn echoes_identifier(r: KeyResponse, identifier: Seq<char>) -> bool {
    r.public_key matches Some(p) && p@ == identifier
}

/// The envelope reports the failure `e`: not a success, the message text
/// of `e`, and no secret.
pub open spec fn reports_failure(r: KeyResponse, e: VaultError) -> bool {
    &&& !r.success
    &&& r.message@ == error_message(e)
    &&& r.private_key is None
}

impl VaultError {
    /// Renders this failure as the human-readable message the envelope
    /// carries.
    pub fn describe(&self) -> (r: String)
        ensures
            r@ == error_message(*self),
    {
        let (prefix, detail): (&str, &String) = match self {
            VaultError::HandleCreation { detail } => ("Failed to create keyring entry: ", detail),
            VaultError::Write { detail } => ("Failed to store private key: ", detail),
            VaultError::Read { detail } => ("Failed to retrieve private key: ", detail),
            VaultError::Delete { detail } => ("Failed to delete private key: ", detail),
        };
        let mut m = String::new();
        m.append(prefix);
        m.append(detail.as_str());
        proof {
            assert(m@ =~= error_message(*self));
        }
        m
    }
}

/// Builds the envelope for a store or erase operation from its outcome.
///
/// The secret field is never populated, whatever the outcome.
pub fn completion_envelope(identifier: &str, success_message: &str, outcome: Result<
    (),
    VaultError,
>) -> (r: KeyResponse)
    ensures
        echoes_identifier(r, identifier@),
        r.private_key is None,
        r.success == outcome is Ok,
        outcome is Ok ==> r.message@ == success_message@,
        outcome matches Err(e) ==> reports_failure(r, e),
{
    match outcome {
        Ok(()) => KeyResponse {
            success: true,
            message: String::from_str(success_message),
            public_key: Some(String::from_str(identifier)),
            private_key: None,
        },
        Err(e) => KeyResponse {
            success: false,
            message: e.describe(),
            public_key: Some(String::from_str(identifier)),
            private_key: None,
        },
    }
}

/// Builds the envelope for a retrieve operation from its outcome.
///
/// The secret field is populated if and only if the retrieval succeeded,
/// and then holds exactly the retrieved payload.
pub fn retrieval_envelope(identifier: &str, outcome: Result<String, VaultError>) -> (r:
    KeyResponse)
    ensures
        echoes_identifier(r, identifier@),
        r.success == outcome is Ok,
        r.success <==> r.private_key is Some,
        outcome matches Ok(secret) ==> r.message@ == "retrieved"@ && r.private_key == Some(secret),
        outcome matches Err(e) ==> reports_failure(r, e),
{
    match outcome {
        Ok(secret) => KeyResponse {
            success: true,
            message: String::from_str("retrieved"),
            public_key: Some(String::from_str(identifier)),
            private_key: Some(secret),
        },
        Err(e) => KeyResponse {
            success: false,
            message: e.describe(),
            public_key: Some(String::from_str(identifier)),
            private_key: None,
        },
    }
}

} // verus!
