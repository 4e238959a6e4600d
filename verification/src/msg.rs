//! The two request shapes the factory handles.

use vstd::prelude::*;

verus! {

/// The initialization request: sets the factory owner and the template id.
#[derive(Debug)]
pub struct InstantiateMsg {
    pub factory_owner: String,
    pub contract_code_id: u64,
}

/// An execution request.
#[derive(Debug)]
pub enum ExecuteMsg {
    /// Deploy one sub-instance; the salt makes its derived address unique.
    Deploy { input_salt: String },
}

} // verus!
