use node_template::chain_spec::{
    dev_keys_available, dev_testnet_keys, development_config, local_testnet_config,
    testnet_chain_spec, try_development_config, try_local_testnet_config, ChainType, TestnetKeys,
    ENDOWMENT, STAKE,
};
use node_template::genesis::{AllowedSlots, BabeEpochConfiguration, DefaultFields, StakerStatus};
use node_template::keys::{get_account_id_from_seed, get_from_seed, AccountId, BabeId, GrandpaId, KeyScheme};

fn epoch() -> BabeEpochConfiguration {
    BabeEpochConfiguration { c: (1, 4), allowed_slots: AllowedSlots::PrimaryAndSecondaryPlainSlots }
}

fn account(seed: &str) -> AccountId {
    get_account_id_from_seed(KeyScheme::Sr25519, seed)
}

const NAMES: [&str; 6] = ["Alice", "Bob", "Charlie", "Dave", "Eve", "Ferdie"];

#[test]
fn endowment_and_stake_amounts() {
    assert_eq!(ENDOWMENT, 1u128 << 60);
    assert_eq!(STAKE, (1u128 << 60) / 2);
}

#[test]
fn development_keys_are_available() {
    assert!(dev_keys_available());
}

#[test]
fn development_config_without_wasm_fails() {
    let r = try_development_config(None, epoch()).unwrap();
    assert_eq!(r, Err("Development wasm not available".to_string()));
    let r = try_local_testnet_config(None, epoch()).unwrap();
    assert_eq!(r, Err("Development wasm not available".to_string()));
}

#[test]
fn development_config_describes_the_dev_network() {
    let code = [1u8, 2, 3];
    let spec = try_development_config(Some(&code), epoch()).unwrap().unwrap();
    assert_eq!(spec.name, "Development");
    assert_eq!(spec.id, "dev");
    assert_eq!(spec.chain_type, ChainType::Development);
    assert!(spec.boot_nodes.is_empty());
    assert_eq!(spec.telemetry_endpoints, None);
    assert_eq!(spec.protocol_id, None);
    assert_eq!(spec.properties, None);
    assert_eq!(spec.extensions, None);

    let g = &spec.genesis;
    assert_eq!(g.system.code, code.to_vec());
    assert_eq!(g.system.changes_trie_config, None);
    assert_eq!(g.staking.remaining, DefaultFields::RuntimeDefaults);
    assert_eq!(g.transaction_payment, DefaultFields::RuntimeDefaults);
    assert_eq!(g.sudo.key, account("Alice"));

    let mut endowed = Vec::new();
    for name in NAMES {
        endowed.push((account(name), ENDOWMENT));
    }
    for name in NAMES {
        endowed.push((account(&format!("{}//stash", name)), ENDOWMENT));
    }
    assert_eq!(g.balances.balances, endowed);

    assert_eq!(g.session.keys.len(), 6);
    for (i, name) in NAMES.iter().enumerate() {
        let (stash, controller, keys) = &g.session.keys[i];
        assert_eq!(*stash, account("Alice//stash"));
        assert_eq!(*controller, account("Alice"));
        assert_eq!(keys.babe, BabeId(get_from_seed(KeyScheme::Sr25519, name)));
        assert_eq!(keys.grandpa, GrandpaId(get_from_seed(KeyScheme::Ed25519, name)));
    }

    assert_eq!(g.staking.stakers.len(), 6);
    for (i, name) in NAMES.iter().enumerate() {
        assert_eq!(
            g.staking.stakers[i],
            (account(&format!("{}//stash", name)), account(name), STAKE, StakerStatus::Validator)
        );
    }
    assert_eq!(g.staking.validator_count, 6);
    assert_eq!(g.staking.minimum_validator_count, 6);
    assert_eq!(g.staking.slash_reward_fraction.deconstruct(), 100_000_000);
    assert_eq!(g.staking.invulnerables.len(), 6);
    assert_eq!(g.staking.invulnerables[0], account("Alice//stash"));
}

#[test]
fn local_testnet_differs_only_in_names() {
    let code = [9u8; 4];
    let dev = development_config(Some(&code), epoch()).unwrap();
    let local = local_testnet_config(Some(&code), epoch()).unwrap();
    assert_eq!(local.name, "Local Testnet");
    assert_eq!(local.id, "local_testnet");
    assert_eq!(local.chain_type, ChainType::Local);
    assert_eq!(dev.genesis, local.genesis);
    assert_eq!(dev.boot_nodes, local.boot_nodes);
    assert_eq!(dev.telemetry_endpoints, local.telemetry_endpoints);
    assert_eq!(dev.properties, local.properties);
}

#[test]
fn development_config_twice_is_the_same() {
    let code = [4u8, 5];
    let first = development_config(Some(&code), epoch());
    let second = development_config(Some(&code), epoch());
    assert_eq!(first, second);
}

#[test]
fn missing_wasm_is_reported_before_any_key_is_derived() {
    assert_eq!(
        development_config(None, epoch()),
        Err("Development wasm not available".to_string())
    );
    assert_eq!(
        local_testnet_config(None, epoch()),
        Err("Development wasm not available".to_string())
    );
}

#[test]
fn dev_accounts_are_their_babe_keys() {
    let keys = dev_testnet_keys();
    for i in 0..6 {
        assert_eq!(keys.accounts[i].0, keys.babe[i].0);
    }
}

#[test]
fn testnet_chain_spec_of_two_participants() {
    let keys = TestnetKeys {
        accounts: vec![AccountId([1; 32]), AccountId([2; 32])],
        stashes: vec![AccountId([11; 32]), AccountId([12; 32])],
        babe: vec![BabeId([21; 32]), BabeId([22; 32])],
        grandpa: vec![GrandpaId([31; 32]), GrandpaId([32; 32])],
    };
    let spec = testnet_chain_spec("Two", "two", ChainType::Live, &[7], epoch(), &keys);
    assert_eq!(spec.name, "Two");
    assert_eq!(spec.id, "two");
    assert_eq!(spec.chain_type, ChainType::Live);
    let g = &spec.genesis;
    assert_eq!(g.sudo.key, AccountId([1; 32]));
    assert_eq!(
        g.balances.balances,
        vec![
            (AccountId([1; 32]), ENDOWMENT),
            (AccountId([2; 32]), ENDOWMENT),
            (AccountId([11; 32]), ENDOWMENT),
            (AccountId([12; 32]), ENDOWMENT),
        ]
    );
    assert_eq!(g.session.keys[1].0, AccountId([11; 32]));
    assert_eq!(g.session.keys[1].1, AccountId([1; 32]));
    assert_eq!(g.session.keys[1].2.babe, BabeId([22; 32]));
    assert_eq!(g.session.keys[1].2.grandpa, GrandpaId([32; 32]));
    assert_eq!(
        g.staking.stakers[1],
        (AccountId([12; 32]), AccountId([2; 32]), STAKE, StakerStatus::Validator)
    );
    assert_eq!(g.staking.validator_count, 2);
}
