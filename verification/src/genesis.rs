//! The genesis configuration that this node gives its runtime, and the function
//! that assembles it from the authorities, the root key, the endowed accounts
//! and the stakers.

use vstd::prelude::*;
use crate::keys::{
    get_account_id_from_seed, seed_derives, seed_public, AccountId, AuthorityDiscoveryId, BabeId,
    GrandpaId, KeyScheme,
};

verus! {

/// An endowed account and its free balance at genesis.
#[derive(Clone, Copy, Debug, PartialEq, Eq)]
pub struct AccountConfig {
    pub id: AccountId,
    pub balance: u128,
}

/// A staker: its stash account, its controller account and the amount bonded.
#[derive(Clone, Copy, Debug, PartialEq, Eq)]
pub struct StashConfig {
    pub stash: AccountId,
    pub controller: AccountId,
    pub balance: u128,
}

impl View for AccountConfig {
    type V = (Seq<u8>, u128);

    open spec fn view(&self) -> (Seq<u8>, u128) {
        (self.id@, self.balance)
    }
}

impl View for StashConfig {
    type V = (Seq<u8>, Seq<u8>, u128);

    open spec fn view(&self) -> (Seq<u8>, Seq<u8>, u128) {
        (self.stash@, self.controller@, self.balance)
    }
}

impl AccountConfig {
    /// The account of a development seed's sr25519 key, endowed with `balance`.
    pub fn new_from_seed(seed: &str, balance: u128) -> (r: Self)
        requires
            seed_derives(KeyScheme::Sr25519, seed@),
        ensures
            r.id@ == seed_public(KeyScheme::Sr25519, seed@),
            r.balance == balance,
    {
        AccountConfig { id: get_account_id_from_seed(KeyScheme::Sr25519, seed), balance }
    }
}

impl StashConfig {
    /// A staker with the given stash, controller and bonded amount.
    pub fn new(stash: AccountId, controller: AccountId, balance: u128) -> (r: Self)
        ensures
            r.stash == stash,
            r.controller == controller,
            r.balance == balance,
    {
        StashConfig { stash, controller, balance }
    }
}

/// The session keys of a validator.
#[derive(Clone, Copy, Debug, PartialEq, Eq)]
pub struct SessionKeys {
    pub babe: BabeId,
    pub grandpa: GrandpaId,
}

/// An initial authority: stash account, controller account, BABE key, GRANDPA key.
pub type Authority = (AccountId, AccountId, BabeId, GrandpaId);

/// The role of a staker at genesis.
#[derive(Clone, Debug, PartialEq, Eq)]
pub enum StakerStatus {
    Idle,
    Validator,
    Nominator(Vec<AccountId>),
}

/// A staker's role, taken by the bytes of the nominated accounts.
pub enum StakerStatusView {
    Idle,
    Validator,
    Nominator(Seq<Seq<u8>>),
}

impl View for StakerStatus {
    type V = StakerStatusView;

    open spec fn view(&self) -> StakerStatusView {
        match self {
            StakerStatus::Idle => StakerStatusView::Idle,
            StakerStatus::Validator => StakerStatusView::Validator,
            StakerStatus::Nominator(targets) => StakerStatusView::Nominator(
                targets@.map_values(|a: AccountId| a@),
            ),
        }
    }
}

/// Which kinds of BABE slots may be claimed.
#[derive(Clone, Copy, Debug, PartialEq, Eq)]
pub enum AllowedSlots {
    PrimarySlots,
    PrimaryAndSecondaryPlainSlots,
    PrimaryAndSecondaryVRFSlots,
}

/// The BABE epoch configuration: the primary slot probability `c` and the
/// allowed slot kinds.
#[derive(Clone, Copy, Debug, PartialEq, Eq)]
pub struct BabeEpochConfiguration {
    pub c: (u64, u64),
    pub allowed_slots: AllowedSlots,
}

/// A fraction in parts per billion.
#[derive(Clone, Copy, Debug, PartialEq, Eq)]
pub struct Perbill {
    parts: u32,
}

impl Perbill {
    /// The number of parts per billion.
    pub closed spec fn parts(&self) -> u32 {
        self.parts
    }

    /// The number of parts per billion.
    pub fn deconstruct(&self) -> (parts: u32)
        ensures
            parts == self.parts(),
    {
        self.parts
    }

    /// The fraction `percent / 100`, with `percent` capped at 100.
    pub fn from_percent(percent: u32) -> (r: Perbill)
        ensures
            r.parts() == percent_parts(percent),
    {
        Perbill { parts: perbill_parts_from_percent(percent) }
    }
}

/// Parts per billion of `percent / 100`, the percentage capped at 100.
pub open spec fn percent_parts(percent: u32) -> u32 {
    let capped: int = if percent > 100 { 100 } else { percent as int };
    (capped * 1_000_000_000 / 100) as u32
}

/// Calls `sp_runtime::Perbill::from_percent(percent)` and hands out its parts.
/// Trusted: the source computes `min(percent, 100) * 1_000_000_000 / 100`.
#[verifier::external_body]
fn perbill_parts_from_percent(percent: u32) -> (parts: u32)
    ensures
        parts == percent_parts(percent),
{
    sp_runtime::Perbill::from_percent(percent).deconstruct()
}

/// The configuration of changes tries: how often digests are built and how
/// many levels they have.
#[derive(Clone, Copy, Debug, PartialEq, Eq)]
pub struct ChangesTrieConfiguration {
    pub digest_interval: u32,
    pub digest_levels: u32,
}

/// Fields of a module's genesis that are left at the runtime's own defaults.
#[derive(Clone, Copy, Debug, PartialEq, Eq)]
pub enum DefaultFields {
    RuntimeDefaults,
}

/// The runtime code and the changes trie configuration, if any.
#[derive(Clone, Debug, PartialEq, Eq)]
pub struct SystemConfig {
    pub code: Vec<u8>,
    pub changes_trie_config: Option<ChangesTrieConfiguration>,
}

/// The superuser key.
#[derive(Clone, Copy, Debug, PartialEq, Eq)]
pub struct SudoConfig {
    pub key: AccountId,
}

/// The free balances of the endowed accounts.
#[derive(Clone, Debug, PartialEq, Eq)]
pub struct BalancesConfig {
    pub balances: Vec<(AccountId, u128)>,
}

/// The authority discovery keys.
#[derive(Clone, Debug, PartialEq, Eq)]
pub struct AuthorityDiscoveryConfig {
    pub keys: Vec<AuthorityDiscoveryId>,
}

/// The BABE authorities with their weights, and the epoch configuration.
#[derive(Clone, Debug, PartialEq, Eq)]
pub struct BabeConfig {
    pub authorities: Vec<(BabeId, u64)>,
    pub epoch_config: Option<BabeEpochConfiguration>,
}

/// The GRANDPA authorities with their weights.
#[derive(Clone, Debug, PartialEq, Eq)]
pub struct GrandpaConfig {
    pub authorities: Vec<(GrandpaId, u64)>,
}

/// The session keys: stash account, controller account, keys.
#[derive(Clone, Debug, PartialEq, Eq)]
pub struct SessionConfig {
    pub keys: Vec<(AccountId, AccountId, SessionKeys)>,
}

/// The stakers and the validator set parameters; `remaining` says what the
/// staking fields not held here are set to.
#[derive(Clone, Debug, PartialEq, Eq)]
pub struct StakingConfig {
    pub stakers: Vec<(AccountId, AccountId, u128, StakerStatus)>,
    pub validator_count: u32,
    pub minimum_validator_count: u32,
    pub slash_reward_fraction: Perbill,
    pub invulnerables: Vec<AccountId>,
    pub remaining: DefaultFields,
}

/// The initial storage of the runtime's modules; `transaction_payment` says
/// what the transaction payment module's genesis is set to.
#[derive(Clone, Debug, PartialEq, Eq)]
pub struct GenesisConfig {
    pub system: SystemConfig,
    pub sudo: SudoConfig,
    pub balances: BalancesConfig,
    pub authority_discovery: AuthorityDiscoveryConfig,
    pub babe: BabeConfig,
    pub grandpa: GrandpaConfig,
    pub session: SessionConfig,
    pub staking: StakingConfig,
    pub transaction_payment: DefaultFields,
}

/// A genesis configuration with every key taken by its bytes.
pub struct GenesisView {
    pub code: Seq<u8>,
    pub changes_trie_config: Option<ChangesTrieConfiguration>,
    pub sudo_key: Seq<u8>,
    pub balances: Seq<(Seq<u8>, u128)>,
    pub authority_discovery_keys: Seq<Seq<u8>>,
    pub babe_authorities: Seq<(Seq<u8>, u64)>,
    pub babe_epoch_config: Option<BabeEpochConfiguration>,
    pub grandpa_authorities: Seq<(Seq<u8>, u64)>,
    /// Stash, controller, BABE key, GRANDPA key.
    pub session_keys: Seq<(Seq<u8>, Seq<u8>, Seq<u8>, Seq<u8>)>,
    /// Stash, controller, bonded amount, role.
    pub stakers: Seq<(Seq<u8>, Seq<u8>, u128, StakerStatusView)>,
    pub validator_count: u32,
    pub minimum_validator_count: u32,
    pub slash_reward_parts: u32,
    pub invulnerables: Seq<Seq<u8>>,
    pub staking_remaining: DefaultFields,
    pub transaction_payment: DefaultFields,
}

/// An initial authority taken by its bytes.
pub open spec fn authority_view(a: Authority) -> (Seq<u8>, Seq<u8>, Seq<u8>, Seq<u8>) {
    (a.0@, a.1@, a.2@, a.3@)
}

impl View for GenesisConfig {
    type V = GenesisView;

    open spec fn view(&self) -> GenesisView {
        GenesisView {
            code: self.system.code@,
            changes_trie_config: self.system.changes_trie_config,
            sudo_key: self.sudo.key@,
            balances: self.balances.balances@.map_values(|b: (AccountId, u128)| (b.0@, b.1)),
            authority_discovery_keys: self.authority_discovery.keys@.map_values(
                |k: AuthorityDiscoveryId| k@,
            ),
            babe_authorities: self.babe.authorities@.map_values(|a: (BabeId, u64)| (a.0@, a.1)),
            babe_epoch_config: self.babe.epoch_config,
            grandpa_authorities: self.grandpa.authorities@.map_values(
                |a: (GrandpaId, u64)| (a.0@, a.1),
            ),
            session_keys: self.session.keys@.map_values(
                |k: (AccountId, AccountId, SessionKeys)| (k.0@, k.1@, k.2.babe@, k.2.grandpa@),
            ),
            stakers: self.staking.stakers@.map_values(
                |s: (AccountId, AccountId, u128, StakerStatus)| (s.0@, s.1@, s.2, s.3@),
            ),
            validator_count: self.staking.validator_count,
            minimum_validator_count: self.staking.minimum_validator_count,
            slash_reward_parts: self.staking.slash_reward_fraction.parts(),
            invulnerables: self.staking.invulnerables@.map_values(|a: AccountId| a@),
            staking_remaining: self.staking.remaining,
            transaction_payment: self.transaction_payment,
        }
    }
}

/// The genesis that `testnet_genesis` builds: the endowed accounts hold their
/// balances; every initial authority gets session keys for its stash and
/// controller; there is no changes trie configuration; every staker is a validator and is invulnerable; the validator
/// count and its minimum are the number of stakers; a tenth of a slash goes to
/// the reporter; BABE, GRANDPA and authority discovery start with no
/// authorities of their own, since the session module hands them out; the
/// other staking fields and the transaction payment module keep the runtime's
/// defaults.
pub open spec fn testnet_genesis_view(
    code: Seq<u8>,
    initial_authorities: Seq<(Seq<u8>, Seq<u8>, Seq<u8>, Seq<u8>)>,
    root_key: Seq<u8>,
    endowed_accounts: Seq<(Seq<u8>, u128)>,
    stakers: Seq<(Seq<u8>, Seq<u8>, u128)>,
    epoch_config: BabeEpochConfiguration,
) -> GenesisView {
    GenesisView {
        code,
        changes_trie_config: None,
        sudo_key: root_key,
        balances: endowed_accounts,
        authority_discovery_keys: Seq::empty(),
        babe_authorities: Seq::empty(),
        babe_epoch_config: Some(epoch_config),
        grandpa_authorities: Seq::empty(),
        session_keys: initial_authorities,
        stakers: stakers.map_values(
            |s: (Seq<u8>, Seq<u8>, u128)| (s.0, s.1, s.2, StakerStatusView::Validator),
        ),
        validator_count: stakers.len() as u32,
        minimum_validator_count: stakers.len() as u32,
        slash_reward_parts: percent_parts(10),
        invulnerables: stakers.map_values(|s: (Seq<u8>, Seq<u8>, u128)| s.0),
        staking_remaining: DefaultFields::RuntimeDefaults,
        transaction_payment: DefaultFields::RuntimeDefaults,
    }
}

/// Configures the initial storage of the runtime's modules.
pub fn testnet_genesis(
    wasm_binary: &[u8],
    initial_authorities: Vec<Authority>,
    root_key: AccountId,
    endowed_accounts: Vec<AccountConfig>,
    stakers: Vec<StashConfig>,
    epoch_config: BabeEpochConfiguration,
) -> (genesis: GenesisConfig)
    ensures
        genesis@ == testnet_genesis_view(
            wasm_binary@,
            initial_authorities@.map_values(|a: Authority| authority_view(a)),
            root_key@,
            endowed_accounts@.map_values(|a: AccountConfig| a@),
            stakers@.map_values(|s: StashConfig| s@),
            epoch_config,
        ),
{
    let code = vstd::slice::slice_to_vec(wasm_binary);

    let mut balances: Vec<(AccountId, u128)> = Vec::new();
    let mut i: usize = 0;
    while i < endowed_accounts.len()
        invariant
            i <= endowed_accounts.len(),
            balances@.len() == i,
            forall|j: int| 0 <= j < i ==> #[trigger] balances@[j] == (endowed_accounts@[j].id, endowed_accounts@[j].balance),
        decreases endowed_accounts.len() - i,
    {
        let account = endowed_accounts[i];
        balances.push((account.id, account.balance));
        i = i + 1;
    }

    let mut keys: Vec<(AccountId, AccountId, SessionKeys)> = Vec::new();
    let mut i: usize = 0;
    while i < initial_authorities.len()
        invariant
            i <= initial_authorities.len(),
            keys@.len() == i,
            forall|j: int| 0 <= j < i ==> #[trigger] keys@[j] == (
                initial_authorities@[j].0,
                initial_authorities@[j].1,
                SessionKeys { babe: initial_authorities@[j].2, grandpa: initial_authorities@[j].3 },
            ),
        decreases initial_authorities.len() - i,
    {
        let authority = initial_authorities[i];
        keys.push((authority.0, authority.1, SessionKeys { babe: authority.2, grandpa: authority.3 }));
        i = i + 1;
    }

    let mut staker_entries: Vec<(AccountId, AccountId, u128, StakerStatus)> = Vec::new();
    let mut invulnerables: Vec<AccountId> = Vec::new();
    let mut i: usize = 0;
    while i < stakers.len()
        invariant
            i <= stakers.len(),
            staker_entries@.len() == i,
            invulnerables@.len() == i,
            forall|j: int| 0 <= j < i ==> #[trigger] staker_entries@[j] == (
                stakers@[j].stash,
                stakers@[j].controller,
                stakers@[j].balance,
                StakerStatus::Validator,
            ),
            forall|j: int| 0 <= j < i ==> #[trigger] invulnerables@[j] == stakers@[j].stash,
        decreases stakers.len() - i,
    {
        let staker = stakers[i];
        staker_entries.push((staker.stash, staker.controller, staker.balance, StakerStatus::Validator));
        invulnerables.push(staker.stash);
        i = i + 1;
    }

    let validator_count = stakers.len() as u32;
    let genesis = GenesisConfig {
        system: SystemConfig { code, changes_trie_config: None },
        sudo: SudoConfig { key: root_key },
        balances: BalancesConfig { balances },
        authority_discovery: AuthorityDiscoveryConfig { keys: Vec::new() },
        babe: BabeConfig { authorities: Vec::new(), epoch_config: Some(epoch_config) },
        grandpa: GrandpaConfig { authorities: Vec::new() },
        session: SessionConfig { keys },
        staking: StakingConfig {
            stakers: staker_entries,
            validator_count,
            minimum_validator_count: validator_count,
            slash_reward_fraction: Perbill::from_percent(10),
            invulnerables,
            remaining: DefaultFields::RuntimeDefaults,
        },
        transaction_payment: DefaultFields::RuntimeDefaults,
    };
    proof {
        let g = genesis@;
        let want = testnet_genesis_view(
            wasm_binary@,
            initial_authorities@.map_values(|a: Authority| authority_view(a)),
            root_key@,
            endowed_accounts@.map_values(|a: AccountConfig| a@),
            stakers@.map_values(|s: StashConfig| s@),
            epoch_config,
        );
        assert(g.balances =~= want.balances);
        assert(g.session_keys =~= want.session_keys);
        assert(g.stakers =~= want.stakers);
        assert(g.invulnerables =~= want.invulnerables);
        assert(g.authority_discovery_keys =~= want.authority_discovery_keys);
        assert(g.babe_authorities =~= want.babe_authorities);
        assert(g.grandpa_authorities =~= want.grandpa_authorities);
    }
    genesis
}

/// A genesis whose view is `testnet_genesis_view` of some parts holds those
/// parts in its fields, read field by field.
pub(crate) proof fn genesis_fields_of_view(
    genesis: GenesisConfig,
    code: Seq<u8>,
    authorities: Seq<(Seq<u8>, Seq<u8>, Seq<u8>, Seq<u8>)>,
    root_key: Seq<u8>,
    endowed: Seq<(Seq<u8>, u128)>,
    stakers: Seq<(Seq<u8>, Seq<u8>, u128)>,
    epoch_config: BabeEpochConfiguration,
)
    requires
        genesis@ == testnet_genesis_view(code, authorities, root_key, endowed, stakers, epoch_config),
    ensures
        genesis.system.code@ == code,
        genesis.system.changes_trie_config is None,
        genesis.sudo.key@ == root_key,
        genesis.balances.balances@.len() == endowed.len(),
        forall|i: int| 0 <= i < endowed.len() ==> {
            &&& (#[trigger] genesis.balances.balances@[i]).0@ == endowed[i].0
            &&& genesis.balances.balances@[i].1 == endowed[i].1
        },
        genesis.authority_discovery.keys@.len() == 0,
        genesis.babe.authorities@.len() == 0,
        genesis.grandpa.authorities@.len() == 0,
        genesis.babe.epoch_config == Some(epoch_config),
        genesis.session.keys@.len() == authorities.len(),
        forall|i: int| 0 <= i < authorities.len() ==> {
            &&& (#[trigger] genesis.session.keys@[i]).0@ == authorities[i].0
            &&& genesis.session.keys@[i].1@ == authorities[i].1
            &&& genesis.session.keys@[i].2.babe@ == authorities[i].2
            &&& genesis.session.keys@[i].2.grandpa@ == authorities[i].3
        },
        genesis.staking.stakers@.len() == stakers.len(),
        forall|i: int| 0 <= i < stakers.len() ==> {
            &&& (#[trigger] genesis.staking.stakers@[i]).0@ == stakers[i].0
            &&& genesis.staking.stakers@[i].1@ == stakers[i].1
            &&& genesis.staking.stakers@[i].2 == stakers[i].2
            &&& genesis.staking.stakers@[i].3 is Validator
        },
        genesis.staking.validator_count == stakers.len() as u32,
        genesis.staking.minimum_validator_count == stakers.len() as u32,
        genesis.staking.slash_reward_fraction.parts() == 100_000_000,
        genesis.staking.invulnerables@.len() == stakers.len(),
        forall|i: int| 0 <= i < stakers.len() ==> (#[trigger] genesis.staking.invulnerables@[i])@ == stakers[i].0,
        genesis.staking.remaining == DefaultFields::RuntimeDefaults,
        genesis.transaction_payment == DefaultFields::RuntimeDefaults,
{
    let g = genesis@;
    assert(g.balances.len() == genesis.balances.balances@.len());
    assert forall|i: int| 0 <= i < endowed.len() implies {
        &&& (#[trigger] genesis.balances.balances@[i]).0@ == endowed[i].0
        &&& genesis.balances.balances@[i].1 == endowed[i].1
    } by {
        assert(g.balances[i] == (genesis.balances.balances@[i].0@, genesis.balances.balances@[i].1));
    }
    assert(g.authority_discovery_keys.len() == genesis.authority_discovery.keys@.len());
    assert(g.babe_authorities.len() == genesis.babe.authorities@.len());
    assert(g.grandpa_authorities.len() == genesis.grandpa.authorities@.len());
    assert(g.session_keys.len() == genesis.session.keys@.len());
    assert forall|i: int| 0 <= i < authorities.len() implies {
        &&& (#[trigger] genesis.session.keys@[i]).0@ == authorities[i].0
        &&& genesis.session.keys@[i].1@ == authorities[i].1
        &&& genesis.session.keys@[i].2.babe@ == authorities[i].2
        &&& genesis.session.keys@[i].2.grandpa@ == authorities[i].3
    } by {
        let k = genesis.session.keys@[i];
        assert(g.session_keys[i] == (k.0@, k.1@, k.2.babe@, k.2.grandpa@));
    }
    assert(g.stakers.len() == genesis.staking.stakers@.len());
    assert forall|i: int| 0 <= i < stakers.len() implies {
        &&& (#[trigger] genesis.staking.stakers@[i]).0@ == stakers[i].0
        &&& genesis.staking.stakers@[i].1@ == stakers[i].1
        &&& genesis.staking.stakers@[i].2 == stakers[i].2
        &&& genesis.staking.stakers@[i].3 is Validator
    } by {
        let st = genesis.staking.stakers@[i];
        assert(g.stakers[i] == (st.0@, st.1@, st.2, st.3@));
    }
    assert(g.invulnerables.len() == genesis.staking.invulnerables@.len());
    assert forall|i: int| 0 <= i < stakers.len() implies (#[trigger] genesis.staking.invulnerables@[i])@ == stakers[i].0 by {
        assert(g.invulnerables[i] == genesis.staking.invulnerables@[i]@);
    }
}

/// What `testnet_genesis` builds, for every input: the code and root key as
/// given and no changes trie; one balance per endowed account, in order; no
/// BABE, GRANDPA or authority discovery authorities and the given epoch
/// configuration; one session key entry per initial authority, in order; one
/// validator per staker, in order, all invulnerable; the validator count and
/// its minimum are the number of stakers (as a `u32`), whatever the number of
/// authorities; a tenth of a slash goes to the reporter; the rest of staking
/// and the transaction payment module keep the runtime's defaults.
pub proof fn testnet_genesis_contents(
    wasm_binary: Seq<u8>,
    initial_authorities: Seq<Authority>,
    root_key: AccountId,
    endowed_accounts: Seq<AccountConfig>,
    stakers: Seq<StashConfig>,
    epoch_config: BabeEpochConfiguration,
    genesis: GenesisConfig,
)
    requires
        genesis@ == testnet_genesis_view(
            wasm_binary,
            initial_authorities.map_values(|a: Authority| authority_view(a)),
            root_key@,
            endowed_accounts.map_values(|a: AccountConfig| a@),
            stakers.map_values(|s: StashConfig| s@),
            epoch_config,
        ),
    ensures
        genesis.system.code@ == wasm_binary,
        genesis.system.changes_trie_config is None,
        genesis.sudo.key@ == root_key@,
        genesis.balances.balances@.len() == endowed_accounts.len(),
        forall|i: int| 0 <= i < endowed_accounts.len() ==> {
            &&& (#[trigger] genesis.balances.balances@[i]).0@ == endowed_accounts[i].id@
            &&& genesis.balances.balances@[i].1 == endowed_accounts[i].balance
        },
        genesis.authority_discovery.keys@.len() == 0,
        genesis.babe.authorities@.len() == 0,
        genesis.grandpa.authorities@.len() == 0,
        genesis.babe.epoch_config == Some(epoch_config),
        genesis.session.keys@.len() == initial_authorities.len(),
        forall|i: int| 0 <= i < initial_authorities.len() ==> {
            &&& (#[trigger] genesis.session.keys@[i]).0@ == initial_authorities[i].0@
            &&& genesis.session.keys@[i].1@ == initial_authorities[i].1@
            &&& genesis.session.keys@[i].2.babe@ == initial_authorities[i].2@
            &&& genesis.session.keys@[i].2.grandpa@ == initial_authorities[i].3@
        },
        genesis.staking.stakers@.len() == stakers.len(),
        forall|i: int| 0 <= i < stakers.len() ==> {
            &&& (#[trigger] genesis.staking.stakers@[i]).0@ == stakers[i].stash@
            &&& genesis.staking.stakers@[i].1@ == stakers[i].controller@
            &&& genesis.staking.stakers@[i].2 == stakers[i].balance
            &&& genesis.staking.stakers@[i].3 is Validator
        },
        genesis.staking.validator_count == stakers.len() as u32,
        genesis.staking.minimum_validator_count == stakers.len() as u32,
        genesis.staking.slash_reward_fraction.parts() == 100_000_000,
        genesis.staking.invulnerables@.len() == stakers.len(),
        forall|i: int| 0 <= i < stakers.len() ==> (#[trigger] genesis.staking.invulnerables@[i])@ == stakers[i].stash@,
        genesis.staking.remaining == DefaultFields::RuntimeDefaults,
        genesis.transaction_payment == DefaultFields::RuntimeDefaults,
{
    let g = genesis@;
    assert(g.balances.len() == genesis.balances.balances@.len());
    assert forall|i: int| 0 <= i < endowed_accounts.len() implies {
        &&& (#[trigger] genesis.balances.balances@[i]).0@ == endowed_accounts[i].id@
        &&& genesis.balances.balances@[i].1 == endowed_accounts[i].balance
    } by {
        assert(g.balances[i] == (genesis.balances.balances@[i].0@, genesis.balances.balances@[i].1));
        assert(g.balances[i] == endowed_accounts[i]@);
    }
    assert(g.authority_discovery_keys.len() == genesis.authority_discovery.keys@.len());
    assert(g.babe_authorities.len() == genesis.babe.authorities@.len());
    assert(g.grandpa_authorities.len() == genesis.grandpa.authorities@.len());
    assert(g.session_keys.len() == genesis.session.keys@.len());
    assert forall|i: int| 0 <= i < initial_authorities.len() implies {
        &&& (#[trigger] genesis.session.keys@[i]).0@ == initial_authorities[i].0@
        &&& genesis.session.keys@[i].1@ == initial_authorities[i].1@
        &&& genesis.session.keys@[i].2.babe@ == initial_authorities[i].2@
        &&& genesis.session.keys@[i].2.grandpa@ == initial_authorities[i].3@
    } by {
        let k = genesis.session.keys@[i];
        assert(g.session_keys[i] == (k.0@, k.1@, k.2.babe@, k.2.grandpa@));
        assert(g.session_keys[i] == authority_view(initial_authorities[i]));
    }
    assert(g.stakers.len() == genesis.staking.stakers@.len());
    assert forall|i: int| 0 <= i < stakers.len() implies {
        &&& (#[trigger] genesis.staking.stakers@[i]).0@ == stakers[i].stash@
        &&& genesis.staking.stakers@[i].1@ == stakers[i].controller@
        &&& genesis.staking.stakers@[i].2 == stakers[i].balance
        &&& genesis.staking.stakers@[i].3 is Validator
    } by {
        let st = genesis.staking.stakers@[i];
        assert(g.stakers[i] == (st.0@, st.1@, st.2, st.3@));
        let sv = stakers.map_values(|s: StashConfig| s@)[i];
        assert(sv == stakers[i]@);
        assert(g.stakers[i] == (sv.0, sv.1, sv.2, StakerStatusView::Validator));
    }
    assert(g.invulnerables.len() == genesis.staking.invulnerables@.len());
    assert forall|i: int| 0 <= i < stakers.len() implies (#[trigger] genesis.staking.invulnerables@[i])@ == stakers[i].stash@ by {
        assert(g.invulnerables[i] == genesis.staking.invulnerables@[i]@);
        let sv = stakers.map_values(|s: StashConfig| s@)[i];
        assert(sv == stakers[i]@);
    }
}

} // verus!
