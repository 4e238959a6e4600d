//! What a successful operation hands back to the host: observability
//! attributes and, for a deployment, the creation instruction.

use vstd::prelude::*;

verus! {

/// One observability attribute, a key/value pair of strings.
#[derive(Debug)]
pub struct Attribute {
    pub key: String,
    pub value: String,
}

impl View for Attribute {
    type V = (Seq<char>, Seq<char>);

    open spec fn view(&self) -> (Seq<char>, Seq<char>) {
        (self.key@, self.value@)
    }
}

/// A coin attached to an instruction. Deployments never attach any.
#[derive(Debug)]
pub struct Coin {
    pub denom: String,
    pub amount: u128,
}

/// The instruction to create one sub-instance at the derived address.
#[derive(Debug)]
pub struct CreationInstruction {
    /// No admin is set: the instance is not migratable through the factory.
    pub admin: Option<String>,
    /// The code template to instantiate.
    pub code_id: u64,
    /// A fixed human-readable label.
    pub label: String,
    /// The initialization payload; always empty.
    pub msg: Vec<u8>,
    /// Funds attached to the creation; always none.
    pub funds: Vec<Coin>,
    /// The raw salt bytes the address was derived from.
    pub salt: Vec<u8>,
}

/// The outcome of a successful operation.
#[derive(Debug)]
pub struct Response {
    pub messages: Vec<CreationInstruction>,
    pub attributes: Vec<Attribute>,
}

} // verus!
