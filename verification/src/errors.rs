//! The failures an operation of the factory can end in.

use vstd::prelude::*;

verus! {

/// Every error aborts the whole operation; no partial state is left behind.
#[derive(Clone, Copy, Debug, PartialEq, Eq, Structural)]
pub enum ContractError {
    /// The owner identity handed to initialization is malformed.
    InvalidIdentity,
    /// A deployment was attempted before the factory was initialized.
    NotInitialized,
    /// The configured template id is not known to the host.
    TemplateLookupFailed,
    /// The derived address could not be produced or rendered.
    AddressEncodingFailed,
}

} // verus!
