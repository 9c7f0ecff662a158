use node_template::genesis::{
    testnet_genesis, AccountConfig, DefaultFields, AllowedSlots, BabeEpochConfiguration, Perbill, SessionKeys,
    StakerStatus, StashConfig,
};
use node_template::keys::{get_account_id_from_seed, AccountId, BabeId, GrandpaId, KeyScheme};

fn epoch() -> BabeEpochConfiguration {
    BabeEpochConfiguration { c: (1, 4), allowed_slots: AllowedSlots::PrimaryAndSecondaryPlainSlots }
}

fn acc(b: u8) -> AccountId {
    AccountId([b; 32])
}

#[test]
fn perbill_from_percent() {
    assert_eq!(Perbill::from_percent(10).deconstruct(), 100_000_000);
    assert_eq!(Perbill::from_percent(100).deconstruct(), 1_000_000_000);
    assert_eq!(Perbill::from_percent(250).deconstruct(), 1_000_000_000);
    assert_eq!(Perbill::from_percent(0).deconstruct(), 0);
}

#[test]
fn stash_config_new_keeps_its_fields() {
    let s = StashConfig::new(acc(1), acc(2), 7);
    assert_eq!(s.stash, acc(1));
    assert_eq!(s.controller, acc(2));
    assert_eq!(s.balance, 7);
}

#[test]
fn testnet_genesis_assembles_every_module() {
    let authorities = vec![
        (acc(1), acc(2), BabeId([3; 32]), GrandpaId([4; 32])),
        (acc(5), acc(6), BabeId([7; 32]), GrandpaId([8; 32])),
    ];
    let endowed = vec![
        AccountConfig { id: acc(1), balance: 100 },
        AccountConfig { id: acc(2), balance: 200 },
        AccountConfig { id: acc(9), balance: 300 },
    ];
    let stakers = vec![StashConfig::new(acc(1), acc(2), 50), StashConfig::new(acc(5), acc(6), 60)];
    let g = testnet_genesis(&[0xde, 0xad], authorities, acc(9), endowed, stakers, epoch());

    assert_eq!(g.system.code, vec![0xde, 0xad]);
    assert_eq!(g.system.changes_trie_config, None);
    assert_eq!(g.staking.remaining, DefaultFields::RuntimeDefaults);
    assert_eq!(g.transaction_payment, DefaultFields::RuntimeDefaults);
    assert_eq!(g.sudo.key, acc(9));
    assert_eq!(g.balances.balances, vec![(acc(1), 100), (acc(2), 200), (acc(9), 300)]);
    assert!(g.authority_discovery.keys.is_empty());
    assert!(g.babe.authorities.is_empty());
    assert_eq!(g.babe.epoch_config, Some(epoch()));
    assert!(g.grandpa.authorities.is_empty());
    assert_eq!(
        g.session.keys,
        vec![
            (acc(1), acc(2), SessionKeys { babe: BabeId([3; 32]), grandpa: GrandpaId([4; 32]) }),
            (acc(5), acc(6), SessionKeys { babe: BabeId([7; 32]), grandpa: GrandpaId([8; 32]) }),
        ]
    );
    assert_eq!(
        g.staking.stakers,
        vec![
            (acc(1), acc(2), 50, StakerStatus::Validator),
            (acc(5), acc(6), 60, StakerStatus::Validator),
        ]
    );
    assert_eq!(g.staking.validator_count, 2);
    assert_eq!(g.staking.minimum_validator_count, 2);
    assert_eq!(g.staking.slash_reward_fraction.deconstruct(), 100_000_000);
    assert_eq!(g.staking.invulnerables, vec![acc(1), acc(5)]);
}

#[test]
fn testnet_genesis_of_nothing() {
    let g = testnet_genesis(&[], vec![], acc(0), vec![], vec![], epoch());
    assert!(g.system.code.is_empty());
    assert!(g.balances.balances.is_empty());
    assert!(g.session.keys.is_empty());
    assert!(g.staking.stakers.is_empty());
    assert_eq!(g.staking.validator_count, 0);
    assert_eq!(g.staking.minimum_validator_count, 0);
    assert!(g.staking.invulnerables.is_empty());
}

#[test]
fn account_config_from_seed() {
    let a = AccountConfig::new_from_seed("Eve", 42);
    assert_eq!(a.id, get_account_id_from_seed(KeyScheme::Sr25519, "Eve"));
    assert_eq!(a.balance, 42);
    let b = AccountConfig::new_from_seed("Alice//stash", 1u128 << 60);
    assert_eq!(b.balance, 1u128 << 60);
    assert_eq!(
        b.id,
        AccountId([
            0xbe, 0x5d, 0xdb, 0x15, 0x79, 0xb7, 0x2e, 0x84, 0x52, 0x4f, 0xc2, 0x9e, 0x78, 0x60, 0x9e,
            0x3c, 0xaf, 0x42, 0xe8, 0x5a, 0xa1, 0x18, 0xeb, 0xfe, 0x0b, 0x0a, 0xd4, 0x04, 0xb5, 0xbd,
            0xd2, 0x5f,
        ])
    );
}
