//! The factory's two operations.
//!
//! `instantiate` writes the configuration record exactly once and reports it
//! through attributes. `execute` dispatches a deployment: it reads the
//! configuration, derives the canonical address of the instance to be
//! created from (checksum, creator identity, salt), and `deploy_response`
//! then builds the creation instruction around the host-rendered form of
//! that address.
//!
//! The host's own capabilities — identity validation, canonicalization,
//! checksum lookup and address rendering — run outside this library; their
//! results come in as plain values, and every decision taken on them here is
//! verified for each value they could take.

use vstd::prelude::*;
use vstd::slice::slice_to_vec;
use vstd::string::StringExecFns;
use vstd::utf8::encode_utf8;

use crate::decimal::dec_str;
use crate::decimal::u64_to_string;
use crate::derivation::derive_address;
use crate::derivation::derive_of;
use crate::errors::ContractError;
use crate::msg::ExecuteMsg;
use crate::msg::InstantiateMsg;
use crate::response::Attribute;
use crate::response::CreationInstruction;
use crate::response::Response;
use crate::state::Config;
use crate::state::ConfigStore;

verus! {

/// The outcome of the derivation phase of a deployment: everything the
/// creation instruction needs, with the predicted address still in its
/// canonical (binary) form. The host renders it before the response is
/// built.
#[derive(Debug)]
pub struct PendingDeploy {
    /// The template the instance will be created from.
    pub code_id: u64,
    /// The raw salt bytes the address was derived from.
    pub salt: Vec<u8>,
    /// The canonical address the instance will occupy.
    pub predicted_canonical: Vec<u8>,
}

impl View for PendingDeploy {
    type V = (u64, Seq<u8>, Seq<u8>);

    open spec fn view(&self) -> (u64, Seq<u8>, Seq<u8>) {
        (self.code_id, self.salt@, self.predicted_canonical@)
    }
}

/// The byte view of an optional byte vector.
pub open spec fn opt_bytes(o: Option<Vec<u8>>) -> Option<Seq<u8>> {
    match o {
        Some(v) => Some(v@),
        None => None,
    }
}

/// The key/value views of a sequence of attributes.
pub open spec fn attrs_of(attrs: Seq<Attribute>) -> Seq<(Seq<char>, Seq<char>)> {
    attrs.map_values(|a: Attribute| a@)
}

/// The attributes a successful initialization reports.
pub open spec fn init_attrs(owner: Seq<char>, code_id: u64) -> Seq<(Seq<char>, Seq<char>)> {
    seq![
        ("method"@, "instantiate"@),
        ("factory_owner"@, owner),
        ("contract_code_id"@, dec_str(code_id as nat)),
    ]
}

/// The attributes a successful deployment reports.
pub open spec fn deploy_attrs(code_id: u64, address: Seq<char>) -> Seq<(Seq<char>, Seq<char>)> {
    seq![
        ("method"@, "instantiate2"@),
        ("contract_code_id"@, dec_str(code_id as nat)),
        ("predicted_address"@, address),
    ]
}

/// What the derivation phase returns, as a function of the store's content,
/// the factory's canonical identity, the host's checksum lookup for the
/// configured template, and the salt text.
///
/// The store is consulted first: an uninitialized factory fails before the
/// checksum lookup is even considered. A failed lookup means the template is
/// unknown to the host. The derivation itself accepts exactly a 32-byte
/// checksum and a salt of 1 to 64 bytes.
pub open spec fn deploy_model(
    store: ConfigStore,
    creator: Seq<u8>,
    checksum: Option<Seq<u8>>,
    salt_text: Seq<char>,
) -> Result<(u64, Seq<u8>, Seq<u8>), ContractError> {
    let salt = encode_utf8(salt_text);
    match store.config {
        None => Err(ContractError::NotInitialized),
        Some(config) => match checksum {
            None => Err(ContractError::TemplateLookupFailed),
            Some(checksum) => if checksum.len() == 32 && 1 <= salt.len() <= 64 {
                Ok((config.contract_code_id, salt, derive_of(checksum, creator, salt)))
            } else {
                Err(ContractError::AddressEncodingFailed)
            },
        },
    }
}

/// The view of a derivation-phase result.
pub open spec fn pending_model(r: Result<PendingDeploy, ContractError>) -> Result<
    (u64, Seq<u8>, Seq<u8>),
    ContractError,
> {
    match r {
        Ok(p) => Ok(p@),
        Err(e) => Err(e),
    }
}

/// An attribute with a fixed key.
fn make_attr(key: &str, value: String) -> (a: Attribute)
    ensures
        a@ == (key@, value@),
{
    Attribute { key: String::from_str(key), value }
}

/// Initialize the factory: validate-then-store the owner identity and the
/// template id, exactly once.
///
/// `validated_owner` is the host's verdict on the owner identity named in
/// the message: the canonical form on success, `None` when it is malformed.
/// On `None` the whole operation fails with `InvalidIdentity` and the store
/// is untouched.
pub fn instantiate(
    store: &mut ConfigStore,
    validated_owner: Option<String>,
    msg: InstantiateMsg,
) -> (r: Result<Response, ContractError>)
    ensures
        validated_owner is None ==> {
            &&& r is Err
            &&& r->Err_0 == ContractError::InvalidIdentity
            &&& final(store).config == old(store).config
        },
        validated_owner matches Some(owner) ==> {
            &&& final(store).config matches Some(c) && c.factory_owner@ == owner@
                && c.contract_code_id == msg.contract_code_id
            &&& r is Ok
            &&& r->Ok_0.messages@.len() == 0
            &&& r->Ok_0.attributes@.len() == 3
            &&& attrs_of(r->Ok_0.attributes@) == init_attrs(owner@, msg.contract_code_id)
        },
{
    let owner = match validated_owner {
        Some(o) => o,
        None => {
            return Err(ContractError::InvalidIdentity);
        },
    };
    let state = Config { factory_owner: owner.clone(), contract_code_id: msg.contract_code_id };
    store.save(state);
    let mut attributes: Vec<Attribute> = Vec::new();
    attributes.push(make_attr("method", String::from_str("instantiate")));
    attributes.push(make_attr("factory_owner", owner));
    attributes.push(make_attr("contract_code_id", u64_to_string(msg.contract_code_id)));
    proof {
        assert(attrs_of(attributes@) =~= init_attrs(owner@, msg.contract_code_id));
    }
    Ok(Response { messages: Vec::new(), attributes })
}

/// The derivation phase of a deployment.
///
/// `creator` is the canonical identity of the factory instance itself — not
/// of the caller — so that every instance a factory deploys lives in a
/// derivation namespace owned by that factory. `checksum` is the host's
/// lookup of the content fingerprint registered under the configured
/// template id, `None` when the id is unknown.
pub fn execute_deploy(
    store: &ConfigStore,
    creator: &Vec<u8>,
    checksum: Option<Vec<u8>>,
    input_salt: String,
) -> (r: Result<PendingDeploy, ContractError>)
    ensures
        pending_model(r) == deploy_model(*store, creator@, opt_bytes(checksum), input_salt@),
{
    let config = match store.read() {
        Ok(c) => c,
        Err(e) => {
            return Err(e);
        },
    };
    let checksum = match checksum {
        Some(h) => h,
        None => {
            return Err(ContractError::TemplateLookupFailed);
        },
    };
    let salt = slice_to_vec(input_salt.as_str().as_bytes());
    let predicted = match derive_address(&checksum, creator, &salt) {
        Ok(a) => a,
        Err(e) => {
            return Err(e);
        },
    };
    Ok(PendingDeploy { code_id: config.contract_code_id, salt, predicted_canonical: predicted })
}

/// Dispatch one execution request.
pub fn execute(
    store: &ConfigStore,
    creator: &Vec<u8>,
    checksum: Option<Vec<u8>>,
    msg: ExecuteMsg,
) -> (r: Result<PendingDeploy, ContractError>)
    ensures
        msg matches ExecuteMsg::Deploy { input_salt } ==> pending_model(r) == deploy_model(
            *store,
            creator@,
            opt_bytes(checksum),
            input_salt@,
        ),
{
    match msg {
        ExecuteMsg::Deploy { input_salt } => execute_deploy(store, creator, checksum, input_salt),
    }
}

/// Build the response of a deployment around the host-rendered form of the
/// predicted address.
///
/// `humanized` is the host's rendering of `pending.predicted_canonical`;
/// `None` means it could not be rendered, which fails the operation with
/// `AddressEncodingFailed`. On success the response carries exactly one
/// creation instruction — no admin, empty initialization payload, no funds,
/// the fixed label, the raw salt — and the three deployment attributes.
pub fn deploy_response(pending: PendingDeploy, humanized: Option<String>) -> (r: Result<
    Response,
    ContractError,
>)
    ensures
        humanized is None ==> {
            &&& r is Err
            &&& r->Err_0 == ContractError::AddressEncodingFailed
        },
        humanized matches Some(address) ==> {
            &&& r is Ok
            &&& r->Ok_0.messages@.len() == 1
            &&& r->Ok_0.messages@[0].admin is None
            &&& r->Ok_0.messages@[0].code_id == pending.code_id
            &&& r->Ok_0.messages@[0].label@ == "Instance"@
            &&& r->Ok_0.messages@[0].msg@.len() == 0
            &&& r->Ok_0.messages@[0].funds@.len() == 0
            &&& r->Ok_0.messages@[0].salt@ == pending.salt@
            &&& r->Ok_0.attributes@.len() == 3
            &&& attrs_of(r->Ok_0.attributes@) == deploy_attrs(pending.code_id, address@)
        },
{
    let address = match humanized {
        Some(a) => a,
        None => {
            return Err(ContractError::AddressEncodingFailed);
        },
    };
    let code_id = pending.code_id;
    let mut messages: Vec<CreationInstruction> = Vec::new();
    messages.push(
        CreationInstruction {
            admin: None,
            code_id,
            label: String::from_str("Instance"),
            msg: Vec::new(),
            funds: Vec::new(),
            salt: pending.salt,
        },
    );
    let mut attributes: Vec<Attribute> = Vec::new();
    attributes.push(make_attr("method", String::from_str("instantiate2")));
    attributes.push(make_attr("contract_code_id", u64_to_string(code_id)));
    attributes.push(make_attr("predicted_address", address));
    proof {
        assert(attrs_of(attributes@) =~= deploy_attrs(code_id, humanized->0@));
    }
    Ok(Response { messages, attributes })
}

/// Determinism of a deployment: two derivation phases run against the same
/// configuration, the same creator identity, the same checksum lookup and
/// the same salt come to the same outcome — in particular they predict the
/// same address.
pub proof fn lemma_deploy_deterministic(
    store1: ConfigStore,
    store2: ConfigStore,
    creator: Seq<u8>,
    checksum: Option<Seq<u8>>,
    salt_text: Seq<char>,
)
    requires
        store1.config == store2.config,
    ensures
        deploy_model(store1, creator, checksum, salt_text) == deploy_model(
            store2,
            creator,
            checksum,
            salt_text,
        ),
{
}

/// A deployment attempted before initialization fails with
/// `NotInitialized`, whatever the other inputs are.
pub proof fn lemma_deploy_uninitialized(
    store: ConfigStore,
    creator: Seq<u8>,
    checksum: Option<Seq<u8>>,
    salt_text: Seq<char>,
)
    requires
        store.config is None,
    ensures
        ({
            let m = deploy_model(store, creator, checksum, salt_text);
            m is Err && m->Err_0 == ContractError::NotInitialized
        }),
{
}

} // verus!
