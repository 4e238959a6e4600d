//! The factory's persistent configuration: a single record, written once at
//! initialization and only read afterwards.
//!
//! The host persists the record under one fixed storage key; [`ConfigStore`]
//! models that key's content as an optional value. Reading an absent record
//! is an error, never a default: deployments must not run against a
//! zero-value template id.

use vstd::prelude::*;

use crate::errors::ContractError;

verus! {

/// The immutable-after-init factory parameters.
#[derive(Debug)]
pub struct Config {
    /// Validated identity of the principal that instantiated the factory.
    pub factory_owner: String,
    /// Identifier of the code template used to create sub-instances.
    pub contract_code_id: u64,
}

impl Clone for Config {
    fn clone(&self) -> (r: Self)
        ensures
            r == *self,
    {
        Config { factory_owner: self.factory_owner.clone(), contract_code_id: self.contract_code_id }
    }
}

/// The content of the factory's single storage slot.
pub struct ConfigStore {
    /// `Some` exactly when initialization has completed.
    pub config: Option<Config>,
}

/// What a read of the store returns, as a function of the store's content.
pub open spec fn read_model(s: ConfigStore) -> Result<Config, ContractError> {
    match s.config {
        Some(c) => Ok(c),
        None => Err(ContractError::NotInitialized),
    }
}

impl ConfigStore {
    /// An empty store: the factory has not been initialized yet.
    pub fn new() -> (r: ConfigStore)
        ensures
            r.config is None,
    {
        ConfigStore { config: None }
    }

    /// Persist the configuration record, overwriting any earlier value.
    pub fn save(&mut self, value: Config)
        ensures
            final(self).config == Some(value),
    {
        self.config = Some(value);
    }

    /// Load the configuration record; fails with `NotInitialized` while the
    /// store is empty. The read never changes the store.
    pub fn read(&self) -> (r: Result<Config, ContractError>)
        ensures
            r == read_model(*self),
    {
        match &self.config {
            Some(c) => Ok(c.clone()),
            None => Err(ContractError::NotInitialized),
        }
    }
}

/// Reading is idempotent: two reads of the same store content, with no write
/// in between, return identical values.
pub proof fn lemma_read_idempotent(
    s: ConfigStore,
    r1: Result<Config, ContractError>,
    r2: Result<Config, ContractError>,
)
    requires
        r1 == read_model(s),
        r2 == read_model(s),
    ensures
        r1 == r2,
{
}

} // verus!
