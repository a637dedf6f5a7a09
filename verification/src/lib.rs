//! Credential vault bridge: stores, retrieves and erases private signing
//! keys in the operating system's credential store, addressed by a
//! deterministically derived storage key, and reports every outcome as a
//! uniform result envelope.

pub mod envelope;
pub mod protocol;
pub mod resolver;
pub mod vault;

use vstd::prelude::*;

verus! {

/// The caller's liveness probe: always answers `"pong"`.
pub fn ping() -> (r: &'static str)
    ensures
        r@ == "pong"@,
{
    "pong"
}

} // verus!
