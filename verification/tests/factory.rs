use cosmwasm_std::testing::mock_env;
use cosmwasm_std::testing::MockApi;
use cosmwasm_std::Api;
use cosmwasm_std::CanonicalAddr;
use cosmwasm_std::HexBinary;

use instantiate2_factory::contract::deploy_response;
use instantiate2_factory::contract::execute;
use instantiate2_factory::contract::execute_deploy;
use instantiate2_factory::contract::instantiate;
use instantiate2_factory::contract::PendingDeploy;
use instantiate2_factory::decimal::u64_to_string;
use instantiate2_factory::errors::ContractError;
use instantiate2_factory::msg::ExecuteMsg;
use instantiate2_factory::msg::InstantiateMsg;
use instantiate2_factory::state::Config;
use instantiate2_factory::state::ConfigStore;

const CREATOR: &str = "creator";
const CODE_ID: u64 = 1;

/// The host-side identity validation, as the mock host performs it.
fn validate(owner: &str) -> Option<String> {
    MockApi::default()
        .addr_validate(owner)
        .ok()
        .map(|a| a.to_string())
}

/// The canonical identity of the factory instance in the mock host.
fn factory_canonical() -> Vec<u8> {
    let env = mock_env();
    MockApi::default()
        .addr_canonicalize(env.contract.address.as_str())
        .unwrap()
        .to_vec()
}

/// A host rendering of a canonical address, as a hex string.
fn humanize(canonical: &[u8]) -> String {
    HexBinary::from(canonical).to_hex()
}

fn initialized_store() -> ConfigStore {
    let mut store = ConfigStore::new();
    let msg = InstantiateMsg {
        factory_owner: CREATOR.to_string(),
        contract_code_id: CODE_ID,
    };
    instantiate(&mut store, validate(CREATOR), msg).unwrap();
    store
}

fn checksum_of_template() -> Vec<u8> {
    vec![0x9a; 32]
}

#[test]
fn instantiate_works() {
    let mut store = ConfigStore::new();
    let msg = InstantiateMsg {
        factory_owner: CREATOR.to_string(),
        contract_code_id: CODE_ID,
    };
    let res = instantiate(&mut store, validate(CREATOR), msg).unwrap();
    println!("{:?}", &res);
    assert_eq!(3, res.attributes.len());
}

#[test]
fn instantiate_reports_owner_and_template() {
    let mut store = ConfigStore::new();
    let msg = InstantiateMsg {
        factory_owner: CREATOR.to_string(),
        contract_code_id: CODE_ID,
    };
    let res = instantiate(&mut store, validate(CREATOR), msg).unwrap();
    assert_eq!(3, res.attributes.len());
    assert_eq!(res.attributes[0].key, "method");
    assert_eq!(res.attributes[0].value, "instantiate");
    assert_eq!(res.attributes[1].key, "factory_owner");
    assert_eq!(res.attributes[1].value, "creator");
    assert_eq!(res.attributes[2].key, "contract_code_id");
    assert_eq!(res.attributes[2].value, "1");
    assert!(res.messages.is_empty());
    let config = store.read().unwrap();
    assert_eq!(config.factory_owner, "creator");
    assert_eq!(config.contract_code_id, CODE_ID);
}

#[test]
fn instantiate_rejects_malformed_owner() {
    let mut store = ConfigStore::new();
    let msg = InstantiateMsg {
        factory_owner: "A".to_string(),
        contract_code_id: CODE_ID,
    };
    let owner = validate("A");
    assert!(owner.is_none());
    let err = instantiate(&mut store, owner, msg).unwrap_err();
    assert_eq!(err, ContractError::InvalidIdentity);
    assert_eq!(store.read().unwrap_err(), ContractError::NotInitialized);
}

#[test]
fn deploy_before_initialize_fails() {
    let store = ConfigStore::new();
    let err = execute_deploy(
        &store,
        &factory_canonical(),
        Some(checksum_of_template()),
        "abc".to_string(),
    )
    .unwrap_err();
    assert_eq!(err, ContractError::NotInitialized);
}

#[test]
fn deploy_builds_one_creation_instruction() {
    let store = initialized_store();
    let creator = factory_canonical();
    let checksum = checksum_of_template();
    let pending = execute(
        &store,
        &creator,
        Some(checksum.clone()),
        ExecuteMsg::Deploy {
            input_salt: "abc".to_string(),
        },
    )
    .unwrap();
    assert_eq!(pending.code_id, CODE_ID);
    assert_eq!(pending.salt, b"abc".to_vec());

    // The predicted address must match the host's derivation function,
    // applied to (checksum of the template, factory address, salt).
    let expected = cosmwasm_std::instantiate2_address(
        &checksum,
        &CanonicalAddr::from(creator.as_slice()),
        b"abc",
    )
    .unwrap();
    assert_eq!(pending.predicted_canonical, expected.to_vec());

    let rendered = humanize(&pending.predicted_canonical);
    let res = deploy_response(pending, Some(rendered.clone())).unwrap();
    assert_eq!(res.messages.len(), 1);
    let instruction = &res.messages[0];
    assert!(instruction.admin.is_none());
    assert_eq!(instruction.code_id, CODE_ID);
    assert_eq!(instruction.label, "Instance");
    assert!(instruction.msg.is_empty());
    assert!(instruction.funds.is_empty());
    assert_eq!(instruction.salt, b"abc".to_vec());
    assert_eq!(res.attributes.len(), 3);
    assert_eq!(res.attributes[0].key, "method");
    assert_eq!(res.attributes[0].value, "instantiate2");
    assert_eq!(res.attributes[1].key, "contract_code_id");
    assert_eq!(res.attributes[1].value, "1");
    assert_eq!(res.attributes[2].key, "predicted_address");
    assert_eq!(res.attributes[2].value, rendered);
}

#[test]
fn deploy_twice_with_same_salt_predicts_same_address() {
    let store = initialized_store();
    let creator = factory_canonical();
    let first = execute_deploy(
        &store,
        &creator,
        Some(checksum_of_template()),
        "abc".to_string(),
    )
    .unwrap();
    let second = execute_deploy(
        &store,
        &creator,
        Some(checksum_of_template()),
        "abc".to_string(),
    )
    .unwrap();
    assert_eq!(first.predicted_canonical, second.predicted_canonical);
}

#[test]
fn deploy_against_unknown_template_fails() {
    let store = initialized_store();
    let err = execute(
        &store,
        &factory_canonical(),
        None,
        ExecuteMsg::Deploy {
            input_salt: "abc".to_string(),
        },
    )
    .unwrap_err();
    assert_eq!(err, ContractError::TemplateLookupFailed);
}

#[test]
fn different_salts_predict_different_addresses() {
    let store = initialized_store();
    let creator = factory_canonical();
    let first = execute_deploy(
        &store,
        &creator,
        Some(checksum_of_template()),
        "salt-one".to_string(),
    )
    .unwrap();
    let second = execute_deploy(
        &store,
        &creator,
        Some(checksum_of_template()),
        "salt-two".to_string(),
    )
    .unwrap();
    assert_ne!(first.predicted_canonical, second.predicted_canonical);
}

#[test]
fn different_creators_predict_different_addresses() {
    let store = initialized_store();
    let creator1 = vec![0x11; 20];
    let creator2 = vec![0x22; 20];
    let first = execute_deploy(
        &store,
        &creator1,
        Some(checksum_of_template()),
        "abc".to_string(),
    )
    .unwrap();
    let second = execute_deploy(
        &store,
        &creator2,
        Some(checksum_of_template()),
        "abc".to_string(),
    )
    .unwrap();
    assert_ne!(first.predicted_canonical, second.predicted_canonical);
}

#[test]
fn empty_salt_fails_address_encoding() {
    let store = initialized_store();
    let err = execute_deploy(
        &store,
        &factory_canonical(),
        Some(checksum_of_template()),
        String::new(),
    )
    .unwrap_err();
    assert_eq!(err, ContractError::AddressEncodingFailed);
}

#[test]
fn malformed_checksum_fails_address_encoding() {
    let store = initialized_store();
    let err = execute_deploy(
        &store,
        &factory_canonical(),
        Some(vec![0x9a; 31]),
        "abc".to_string(),
    )
    .unwrap_err();
    assert_eq!(err, ContractError::AddressEncodingFailed);
}

#[test]
fn unrendered_address_fails_deploy_response() {
    let pending = PendingDeploy {
        code_id: CODE_ID,
        salt: b"abc".to_vec(),
        predicted_canonical: vec![0x42; 32],
    };
    let err = deploy_response(pending, None).unwrap_err();
    assert_eq!(err, ContractError::AddressEncodingFailed);
}

#[test]
fn read_is_idempotent() {
    let store = initialized_store();
    let first = store.read().unwrap();
    let second = store.read().unwrap();
    assert_eq!(first.factory_owner, second.factory_owner);
    assert_eq!(first.contract_code_id, second.contract_code_id);

    let empty = ConfigStore::new();
    assert_eq!(empty.read().unwrap_err(), empty.read().unwrap_err());
}

#[test]
fn save_overwrites_earlier_value() {
    let mut store = ConfigStore::new();
    store.save(Config {
        factory_owner: "first".to_string(),
        contract_code_id: 7,
    });
    store.save(Config {
        factory_owner: "second".to_string(),
        contract_code_id: 9,
    });
    let config = store.read().unwrap();
    assert_eq!(config.factory_owner, "second");
    assert_eq!(config.contract_code_id, 9);
}

#[test]
fn decimal_rendering_is_exact() {
    assert_eq!(u64_to_string(0), "0");
    assert_eq!(u64_to_string(1), "1");
    assert_eq!(u64_to_string(10), "10");
    assert_eq!(u64_to_string(305441), "305441");
    assert_eq!(u64_to_string(u64::MAX), "18446744073709551615");
}
