//! The chain specifications of the development and local test networks.

use vstd::prelude::*;
use vstd::string::*;
use crate::keys::{
    derives_from_seed, get_from_seed, seed_derives, seed_public, AccountId,
    sr25519_public_from_suri, ed25519_public_from_suri,
    BabeId, GrandpaId, KeyScheme,
};
use crate::genesis::{
    authority_view, testnet_genesis, testnet_genesis_view, AccountConfig, Authority,
    BabeEpochConfiguration, DefaultFields, GenesisConfig, GenesisView, StashConfig,
    genesis_fields_of_view,
};

verus! {

/// The kind of chain a specification describes.
#[derive(Clone, Debug, PartialEq, Eq)]
pub enum ChainType {
    Development,
    Local,
    Live,
    Custom(String),
}

/// A chain specification: its names, type, boot nodes, telemetry endpoints
/// (URL and verbosity), protocol id, properties (each a name and the JSON text
/// of its value), extensions and genesis.
#[derive(Clone, Debug, PartialEq, Eq)]
pub struct ChainSpec {
    pub name: String,
    pub id: String,
    pub chain_type: ChainType,
    pub boot_nodes: Vec<String>,
    pub telemetry_endpoints: Option<Vec<(String, u8)>>,
    pub protocol_id: Option<String>,
    pub properties: Option<Vec<(String, String)>>,
    pub extensions: Option<()>,
    pub genesis: GenesisConfig,
}

/// A chain specification taken by its strings' characters and its genesis view.
pub struct ChainSpecView {
    pub name: Seq<char>,
    pub id: Seq<char>,
    pub chain_type: ChainType,
    pub boot_nodes: Seq<Seq<char>>,
    pub telemetry_endpoints: Option<Seq<(Seq<char>, u8)>>,
    pub protocol_id: Option<Seq<char>>,
    pub properties: Option<Seq<(Seq<char>, Seq<char>)>>,
    pub extensions: Option<()>,
    pub genesis: GenesisView,
}

impl View for ChainSpec {
    type V = ChainSpecView;

    open spec fn view(&self) -> ChainSpecView {
        ChainSpecView {
            name: self.name@,
            id: self.id@,
            chain_type: self.chain_type,
            boot_nodes: self.boot_nodes@.map_values(|s: String| s@),
            telemetry_endpoints: match self.telemetry_endpoints {
                Some(endpoints) => Some(endpoints@.map_values(|e: (String, u8)| (e.0@, e.1))),
                None => None,
            },
            protocol_id: match self.protocol_id {
                Some(p) => Some(p@),
                None => None,
            },
            properties: match self.properties {
                Some(properties) => Some(properties@.map_values(|p: (String, String)| (p.0@, p.1@))),
                None => None,
            },
            extensions: self.extensions,
            genesis: self.genesis@,
        }
    }
}

/// The free balance of every endowed account of a test network: 2^60.
pub const ENDOWMENT: u128 = 1152921504606846976;

/// The amount every staker of a test network bonds: half its endowment.
pub const STAKE: u128 = 576460752303423488;

/// The keys of the participants of a test network. Participant `i` has the
/// account `accounts[i]`, the stash `stashes[i]`, and the authority keys
/// `babe[i]` and `grandpa[i]`.
#[derive(Clone, Debug, PartialEq, Eq)]
pub struct TestnetKeys {
    pub accounts: Vec<AccountId>,
    pub stashes: Vec<AccountId>,
    pub babe: Vec<BabeId>,
    pub grandpa: Vec<GrandpaId>,
}

/// The keys of a test network's participants, taken by their bytes.
pub struct TestnetKeysView {
    pub accounts: Seq<Seq<u8>>,
    pub stashes: Seq<Seq<u8>>,
    pub babe: Seq<Seq<u8>>,
    pub grandpa: Seq<Seq<u8>>,
}

impl View for TestnetKeys {
    type V = TestnetKeysView;

    open spec fn view(&self) -> TestnetKeysView {
        TestnetKeysView {
            accounts: self.accounts@.map_values(|a: AccountId| a@),
            stashes: self.stashes@.map_values(|a: AccountId| a@),
            babe: self.babe@.map_values(|k: BabeId| k@),
            grandpa: self.grandpa@.map_values(|k: GrandpaId| k@),
        }
    }
}

impl TestnetKeysView {
    /// At least one participant, and one of each key per participant.
    pub open spec fn well_formed(self) -> bool {
        &&& self.accounts.len() >= 1
        &&& self.stashes.len() == self.accounts.len()
        &&& self.babe.len() == self.accounts.len()
        &&& self.grandpa.len() == self.accounts.len()
    }

    /// The endowed accounts: every participant's account, then every
    /// participant's stash, each with `ENDOWMENT`.
    pub open spec fn endowed(self) -> Seq<(Seq<u8>, u128)> {
        self.accounts.map_values(|a: Seq<u8>| (a, ENDOWMENT))
            + self.stashes.map_values(|s: Seq<u8>| (s, ENDOWMENT))
    }

    /// The stakers: participant `i` bonds `STAKE` from its stash with its
    /// account as controller.
    pub open spec fn stakers(self) -> Seq<(Seq<u8>, Seq<u8>, u128)> {
        Seq::new(self.stashes.len(), |i: int| (self.stashes[i], self.accounts[i], STAKE))
    }

    /// The initial authorities: one per participant's BABE and GRANDPA key,
    /// every one of them with the first participant's stash and account.
    pub open spec fn authorities(self) -> Seq<(Seq<u8>, Seq<u8>, Seq<u8>, Seq<u8>)> {
        Seq::new(
            self.babe.len(),
            |i: int| (self.stashes[0], self.accounts[0], self.babe[i], self.grandpa[i]),
        )
    }
}

/// The chain specification of a test network of the given participants: no
/// boot nodes, telemetry endpoints, protocol id, properties or extensions, and
/// the first participant's account as the root key.
pub open spec fn testnet_chain_spec_view(
    name: Seq<char>,
    id: Seq<char>,
    chain_type: ChainType,
    code: Seq<u8>,
    epoch_config: BabeEpochConfiguration,
    keys: TestnetKeysView,
) -> ChainSpecView {
    ChainSpecView {
        name,
        id,
        chain_type,
        boot_nodes: Seq::empty(),
        telemetry_endpoints: None,
        protocol_id: None,
        properties: None,
        extensions: None,
        genesis: testnet_genesis_view(
            code,
            keys.authorities(),
            keys.accounts[0],
            keys.endowed(),
            keys.stakers(),
            epoch_config,
        ),
    }
}

/// Builds the chain specification of a test network of the given participants.
pub fn testnet_chain_spec(
    name: &str,
    id: &str,
    chain_type: ChainType,
    wasm_binary: &[u8],
    epoch_config: BabeEpochConfiguration,
    keys: &TestnetKeys,
) -> (spec: ChainSpec)
    requires
        keys@.well_formed(),
    ensures
        spec@ == testnet_chain_spec_view(name@, id@, chain_type, wasm_binary@, epoch_config, keys@),
{
    let n = keys.accounts.len();
    let ghost kv = keys@;

    let mut endowed: Vec<AccountConfig> = Vec::new();
    let mut i: usize = 0;
    while i < n
        invariant
            n == keys.accounts.len(),
            kv == keys@,
            kv.well_formed(),
            i <= n,
            endowed@.len() == i,
            forall|j: int| 0 <= j < i ==> #[trigger] endowed@[j]@ == kv.endowed()[j],
        decreases n - i,
    {
        endowed.push(AccountConfig { id: keys.accounts[i], balance: ENDOWMENT });
        i = i + 1;
    }
    let mut i: usize = 0;
    while i < n
        invariant
            n == keys.accounts.len(),
            kv == keys@,
            kv.well_formed(),
            i <= n,
            endowed@.len() == n + i,
            forall|j: int| 0 <= j < n + i ==> #[trigger] endowed@[j]@ == kv.endowed()[j],
        decreases n - i,
    {
        endowed.push(AccountConfig { id: keys.stashes[i], balance: ENDOWMENT });
        i = i + 1;
    }

    let mut stakers: Vec<StashConfig> = Vec::new();
    let mut i: usize = 0;
    while i < n
        invariant
            n == keys.accounts.len(),
            kv == keys@,
            kv.well_formed(),
            i <= n,
            stakers@.len() == i,
            forall|j: int| 0 <= j < i ==> #[trigger] stakers@[j]@ == kv.stakers()[j],
        decreases n - i,
    {
        stakers.push(StashConfig::new(keys.stashes[i], keys.accounts[i], STAKE));
        i = i + 1;
    }

    let mut authorities: Vec<Authority> = Vec::new();
    let mut i: usize = 0;
    while i < n
        invariant
            n == keys.accounts.len(),
            kv == keys@,
            kv.well_formed(),
            i <= n,
            authorities@.len() == i,
            forall|j: int| 0 <= j < i ==> #[trigger] authority_view(authorities@[j]) == kv.authorities()[j],
        decreases n - i,
    {
        authorities.push((keys.stashes[0], keys.accounts[0], keys.babe[i], keys.grandpa[i]));
        i = i + 1;
    }

    proof {
        assert(endowed@.map_values(|a: AccountConfig| a@) =~= kv.endowed());
        assert(stakers@.map_values(|s: StashConfig| s@) =~= kv.stakers());
        assert(authorities@.map_values(|a: Authority| authority_view(a)) =~= kv.authorities());
    }

    let genesis = testnet_genesis(
        wasm_binary,
        authorities,
        keys.accounts[0],
        endowed,
        stakers,
        epoch_config,
    );
    let spec = ChainSpec {
        name: String::from_str(name),
        id: String::from_str(id),
        chain_type,
        boot_nodes: Vec::new(),
        telemetry_endpoints: None,
        protocol_id: None,
        properties: None,
        extensions: None,
        genesis,
    };
    proof {
        assert(spec@.boot_nodes =~= Seq::<Seq<char>>::empty());
    }
    spec
}

/// The names of the development participants, whose development seeds give
/// their accounts and authority keys.
pub open spec fn dev_names() -> Seq<Seq<char>> {
    seq!["Alice"@, "Bob"@, "Charlie"@, "Dave"@, "Eve"@, "Ferdie"@]
}

/// The seeds of the development participants' stash accounts.
pub open spec fn dev_stash_names() -> Seq<Seq<char>> {
    seq![
        "Alice//stash"@,
        "Bob//stash"@,
        "Charlie//stash"@,
        "Dave//stash"@,
        "Eve//stash"@,
        "Ferdie//stash"@,
    ]
}

/// Whether every development seed yields the keys the development networks use.
pub open spec fn dev_keys_derive() -> bool {
    forall|i: int|
        #![trigger dev_names()[i]]
        0 <= i < 6 ==> {
            &&& seed_derives(KeyScheme::Sr25519, dev_names()[i])
            &&& seed_derives(KeyScheme::Ed25519, dev_names()[i])
            &&& seed_derives(KeyScheme::Sr25519, dev_stash_names()[i])
        }
}

/// The keys of the development participants: the sr25519 key of a name is
/// both its account and its BABE key, its ed25519 key its GRANDPA key, and the
/// sr25519 key of its stash seed its stash account.
pub open spec fn dev_keys_view() -> TestnetKeysView {
    TestnetKeysView {
        accounts: dev_names().map_values(|n: Seq<char>| seed_public(KeyScheme::Sr25519, n)),
        stashes: dev_stash_names().map_values(|n: Seq<char>| seed_public(KeyScheme::Sr25519, n)),
        babe: dev_names().map_values(|n: Seq<char>| seed_public(KeyScheme::Sr25519, n)),
        grandpa: dev_names().map_values(|n: Seq<char>| seed_public(KeyScheme::Ed25519, n)),
    }
}

/// The development participants' names and stash seeds.
fn dev_seeds() -> (seeds: (Vec<&'static str>, Vec<&'static str>))
    ensures
        seeds.0@.len() == 6,
        seeds.1@.len() == 6,
        forall|i: int| 0 <= i < 6 ==> #[trigger] seeds.0@[i]@ == dev_names()[i],
        forall|i: int| 0 <= i < 6 ==> #[trigger] seeds.1@[i]@ == dev_stash_names()[i],
{
    let mut names: Vec<&'static str> = Vec::new();
    names.push("Alice");
    names.push("Bob");
    names.push("Charlie");
    names.push("Dave");
    names.push("Eve");
    names.push("Ferdie");
    let mut stashes: Vec<&'static str> = Vec::new();
    stashes.push("Alice//stash");
    stashes.push("Bob//stash");
    stashes.push("Charlie//stash");
    stashes.push("Dave//stash");
    stashes.push("Eve//stash");
    stashes.push("Ferdie//stash");
    (names, stashes)
}

/// Whether every development seed yields its keys.
pub fn dev_keys_available() -> (available: bool)
    ensures
        available == dev_keys_derive(),
{
    let (names, stashes) = dev_seeds();
    let mut i: usize = 0;
    while i < 6
        invariant
            i <= 6,
            names@.len() == 6,
            stashes@.len() == 6,
            forall|j: int| 0 <= j < 6 ==> #[trigger] names@[j]@ == dev_names()[j],
            forall|j: int| 0 <= j < 6 ==> #[trigger] stashes@[j]@ == dev_stash_names()[j],
            forall|j: int|
                #![trigger dev_names()[j]]
                0 <= j < i ==> {
                    &&& seed_derives(KeyScheme::Sr25519, dev_names()[j])
                    &&& seed_derives(KeyScheme::Ed25519, dev_names()[j])
                    &&& seed_derives(KeyScheme::Sr25519, dev_stash_names()[j])
                },
        decreases 6 - i,
    {
        assert(names@[i as int]@ == dev_names()[i as int]);
        assert(stashes@[i as int]@ == dev_stash_names()[i as int]);
        let ok = derives_from_seed(KeyScheme::Sr25519, names[i])
            && derives_from_seed(KeyScheme::Ed25519, names[i])
            && derives_from_seed(KeyScheme::Sr25519, stashes[i]);
        if !ok {
            return false;
        }
        i = i + 1;
    }
    true
}

/// The keys of the development participants.
pub fn dev_testnet_keys() -> (keys: TestnetKeys)
    requires
        dev_keys_derive(),
    ensures
        keys@ == dev_keys_view(),
{
    let (names, stashes) = dev_seeds();
    let mut accounts: Vec<AccountId> = Vec::new();
    let mut stash_accounts: Vec<AccountId> = Vec::new();
    let mut babe: Vec<BabeId> = Vec::new();
    let mut grandpa: Vec<GrandpaId> = Vec::new();
    let mut i: usize = 0;
    while i < 6
        invariant
            i <= 6,
            dev_keys_derive(),
            names@.len() == 6,
            stashes@.len() == 6,
            forall|j: int| 0 <= j < 6 ==> #[trigger] names@[j]@ == dev_names()[j],
            forall|j: int| 0 <= j < 6 ==> #[trigger] stashes@[j]@ == dev_stash_names()[j],
            accounts@.len() == i,
            stash_accounts@.len() == i,
            babe@.len() == i,
            grandpa@.len() == i,
            forall|j: int|
                0 <= j < i ==> #[trigger] accounts@[j]@ == seed_public(KeyScheme::Sr25519, dev_names()[j]),
            forall|j: int|
                0 <= j < i ==> #[trigger] stash_accounts@[j]@ == seed_public(KeyScheme::Sr25519, dev_stash_names()[j]),
            forall|j: int|
                0 <= j < i ==> #[trigger] babe@[j]@ == seed_public(KeyScheme::Sr25519, dev_names()[j]),
            forall|j: int|
                0 <= j < i ==> #[trigger] grandpa@[j]@ == seed_public(KeyScheme::Ed25519, dev_names()[j]),
        decreases 6 - i,
    {
        assert(names@[i as int]@ == dev_names()[i as int]);
        assert(stashes@[i as int]@ == dev_stash_names()[i as int]);
        accounts.push(AccountConfig::new_from_seed(names[i], ENDOWMENT).id);
        stash_accounts.push(AccountConfig::new_from_seed(stashes[i], ENDOWMENT).id);
        babe.push(BabeId(get_from_seed(KeyScheme::Sr25519, names[i])));
        grandpa.push(GrandpaId(get_from_seed(KeyScheme::Ed25519, names[i])));
        i = i + 1;
    }
    let keys = TestnetKeys { accounts, stashes: stash_accounts, babe, grandpa };
    proof {
        assert(keys@.accounts =~= dev_keys_view().accounts);
        assert(keys@.stashes =~= dev_keys_view().stashes);
        assert(keys@.babe =~= dev_keys_view().babe);
        assert(keys@.grandpa =~= dev_keys_view().grandpa);
    }
    keys
}

/// The runtime code, if the runtime was built with it.
pub open spec fn wasm_view(wasm_binary: Option<&[u8]>) -> Option<Seq<u8>> {
    match wasm_binary {
        Some(code) => Some(code@),
        None => None,
    }
}

/// What a development network configuration of the given names returns: the
/// error that the runtime code is missing, or the chain specification of the
/// development participants.
pub open spec fn dev_network_result(
    name: Seq<char>,
    id: Seq<char>,
    chain_type: ChainType,
    wasm_binary: Option<Seq<u8>>,
    epoch_config: BabeEpochConfiguration,
    r: Result<ChainSpec, String>,
) -> bool {
    match wasm_binary {
        None => r matches Err(e) && e@ == "Development wasm not available"@,
        Some(code) => r matches Ok(spec) && spec@ == testnet_chain_spec_view(
            name,
            id,
            chain_type,
            code,
            epoch_config,
            dev_keys_view(),
        ),
    }
}

/// What `development_config` returns.
pub open spec fn development_config_result(
    wasm_binary: Option<Seq<u8>>,
    epoch_config: BabeEpochConfiguration,
    r: Result<ChainSpec, String>,
) -> bool {
    dev_network_result("Development"@, "dev"@, ChainType::Development, wasm_binary, epoch_config, r)
}

/// What `local_testnet_config` returns.
pub open spec fn local_testnet_config_result(
    wasm_binary: Option<Seq<u8>>,
    epoch_config: BabeEpochConfiguration,
    r: Result<ChainSpec, String>,
) -> bool {
    dev_network_result("Local Testnet"@, "local_testnet"@, ChainType::Local, wasm_binary, epoch_config, r)
}

/// The specification of a network of the development participants.
fn dev_network_config(
    name: &str,
    id: &str,
    chain_type: ChainType,
    wasm_binary: Option<&[u8]>,
    epoch_config: BabeEpochConfiguration,
) -> (r: Result<ChainSpec, String>)
    requires
        wasm_binary is Some ==> dev_keys_derive(),
    ensures
        dev_network_result(name@, id@, chain_type, wasm_view(wasm_binary), epoch_config, r),
{
    let code = match wasm_binary {
        Some(code) => code,
        None => {
            return Err(String::from_str("Development wasm not available"));
        },
    };
    let keys = dev_testnet_keys();
    Ok(testnet_chain_spec(name, id, chain_type, code, epoch_config, &keys))
}

/// The chain specification of the development network, or an error where the
/// runtime code is missing.
pub fn development_config(
    wasm_binary: Option<&[u8]>,
    epoch_config: BabeEpochConfiguration,
) -> (r: Result<ChainSpec, String>)
    requires
        wasm_binary is Some ==> dev_keys_derive(),
    ensures
        development_config_result(wasm_view(wasm_binary), epoch_config, r),
{
    dev_network_config("Development", "dev", ChainType::Development, wasm_binary, epoch_config)
}

/// The chain specification of the local test network, or an error where the
/// runtime code is missing.
pub fn local_testnet_config(
    wasm_binary: Option<&[u8]>,
    epoch_config: BabeEpochConfiguration,
) -> (r: Result<ChainSpec, String>)
    requires
        wasm_binary is Some ==> dev_keys_derive(),
    ensures
        local_testnet_config_result(wasm_view(wasm_binary), epoch_config, r),
{
    dev_network_config("Local Testnet", "local_testnet", ChainType::Local, wasm_binary, epoch_config)
}

/// `development_config`, or `None` where the runtime code is present and a
/// development seed yields no key.
pub fn try_development_config(
    wasm_binary: Option<&[u8]>,
    epoch_config: BabeEpochConfiguration,
) -> (r: Option<Result<ChainSpec, String>>)
    ensures
        r is None <==> (wasm_binary is Some && !dev_keys_derive()),
        r matches Some(result) ==> development_config_result(wasm_view(wasm_binary), epoch_config, result),
{
    if wasm_binary.is_none() || dev_keys_available() {
        Some(development_config(wasm_binary, epoch_config))
    } else {
        None
    }
}

/// `local_testnet_config`, or `None` where the runtime code is present and a
/// development seed yields no key.
pub fn try_local_testnet_config(
    wasm_binary: Option<&[u8]>,
    epoch_config: BabeEpochConfiguration,
) -> (r: Option<Result<ChainSpec, String>>)
    ensures
        r is None <==> (wasm_binary is Some && !dev_keys_derive()),
        r matches Some(result) ==> local_testnet_config_result(wasm_view(wasm_binary), epoch_config, result),
{
    if wasm_binary.is_none() || dev_keys_available() {
        Some(local_testnet_config(wasm_binary, epoch_config))
    } else {
        None
    }
}

/// The genesis of a test network of the given participants.
pub open spec fn testnet_genesis_of(
    code: Seq<u8>,
    epoch_config: BabeEpochConfiguration,
    keys: TestnetKeysView,
) -> GenesisView {
    testnet_genesis_view(
        code,
        keys.authorities(),
        keys.accounts[0],
        keys.endowed(),
        keys.stakers(),
        epoch_config,
    )
}

/// Whether `balances` endow `account` with at least `amount`.
pub open spec fn endows(balances: Seq<(Seq<u8>, u128)>, account: Seq<u8>, amount: u128) -> bool {
    exists|j: int| 0 <= j < balances.len() && balances[j].0 == account && balances[j].1 >= amount
}

/// The development and the local test network differ only in name, id and
/// chain type: for the same runtime code and epoch configuration either both
/// fail, with the same error, or both succeed with the same boot nodes,
/// telemetry endpoints, protocol id, properties, extensions and genesis.
pub proof fn development_and_local_share_genesis(
    wasm_binary: Option<Seq<u8>>,
    epoch_config: BabeEpochConfiguration,
    dev: Result<ChainSpec, String>,
    local: Result<ChainSpec, String>,
)
    requires
        development_config_result(wasm_binary, epoch_config, dev),
        local_testnet_config_result(wasm_binary, epoch_config, local),
    ensures
        dev is Ok <==> local is Ok,
        dev matches Err(d) ==> (local matches Err(l) && d@ == l@),
        dev matches Ok(d) ==> (local matches Ok(l) && d@.genesis == l@.genesis
            && d@.boot_nodes == l@.boot_nodes && d@.telemetry_endpoints == l@.telemetry_endpoints
            && d@.protocol_id == l@.protocol_id && d@.properties == l@.properties
            && d@.extensions == l@.extensions),
{
}

/// Two development configurations of the same runtime code and epoch
/// configuration are the same: the same error, or chain specifications that
/// agree in every field.
pub proof fn development_config_is_deterministic(
    wasm_binary: Option<Seq<u8>>,
    epoch_config: BabeEpochConfiguration,
    first: Result<ChainSpec, String>,
    second: Result<ChainSpec, String>,
)
    requires
        development_config_result(wasm_binary, epoch_config, first),
        development_config_result(wasm_binary, epoch_config, second),
    ensures
        first is Ok <==> second is Ok,
        first matches Err(a) ==> (second matches Err(b) && a@ == b@),
        first matches Ok(a) ==> (second matches Ok(b) && a@ == b@),
{
}

/// In a test network every staker can bond what it stakes: its stash is an
/// endowed account whose balance covers the bond, and its controller is an
/// endowed account too. Every staker is a validator and invulnerable, the
/// validator count and its minimum are the number of participants, and a
/// tenth of a slash rewards its reporter.
pub proof fn testnet_staking_is_consistent(
    code: Seq<u8>,
    epoch_config: BabeEpochConfiguration,
    keys: TestnetKeysView,
)
    requires
        keys.well_formed(),
        keys.accounts.len() <= u32::MAX,
    ensures
        ({
            let g = testnet_genesis_of(code, epoch_config, keys);
            &&& g.stakers.len() == keys.accounts.len()
            &&& forall|i: int| 0 <= i < g.stakers.len() ==> endows(g.balances, (#[trigger] g.stakers[i]).0, g.stakers[i].2)
            &&& forall|i: int| 0 <= i < g.stakers.len() ==> endows(g.balances, (#[trigger] g.stakers[i]).1, 0)
            &&& forall|i: int| 0 <= i < g.stakers.len() ==> (#[trigger] g.stakers[i]).3 is Validator
            &&& g.invulnerables == keys.stashes
            &&& g.validator_count == keys.accounts.len()
            &&& g.minimum_validator_count == keys.accounts.len()
            &&& g.slash_reward_parts == 100_000_000
        }),
{
    let g = testnet_genesis_of(code, epoch_config, keys);
    let n = keys.accounts.len() as int;
    assert forall|i: int| 0 <= i < g.stakers.len() implies endows(g.balances, (#[trigger] g.stakers[i]).0, g.stakers[i].2) by {
        assert(g.balances[n + i].0 == g.stakers[i].0);
        assert(g.balances[n + i].1 >= g.stakers[i].2);
    }
    assert forall|i: int| 0 <= i < g.stakers.len() implies endows(g.balances, (#[trigger] g.stakers[i]).1, 0) by {
        assert(g.balances[i].0 == g.stakers[i].1);
    }
    assert(g.invulnerables =~= keys.stashes);
}

/// Every development participant's account is its BABE key.
pub proof fn dev_accounts_are_babe_keys()
    ensures
        dev_keys_view().accounts == dev_keys_view().babe,
{
}

/// The development network has six participants: twelve accounts endowed with
/// `ENDOWMENT` each, six validators whose stashes cover their `STAKE`, and
/// Alice's account as the root key.
pub proof fn development_network_shape(
    code: Seq<u8>,
    epoch_config: BabeEpochConfiguration,
    r: Result<ChainSpec, String>,
)
    requires
        development_config_result(Some(code), epoch_config, r),
    ensures
        r matches Ok(spec) && {
            let g = spec@.genesis;
            &&& g.balances.len() == 12
            &&& forall|j: int| 0 <= j < 12 ==> (#[trigger] g.balances[j]).1 == ENDOWMENT
            &&& g.stakers.len() == 6
            &&& g.validator_count == 6
            &&& forall|i: int| 0 <= i < 6 ==> endows(g.balances, (#[trigger] g.stakers[i]).0, g.stakers[i].2)
            &&& g.sudo_key == seed_public(KeyScheme::Sr25519, "Alice"@)
        },
{
    let keys = dev_keys_view();
    assert(keys.accounts.len() == 6);
    testnet_staking_is_consistent(code, epoch_config, keys);
}

/// What `testnet_chain_spec` builds, for every set of participants: the given
/// names and chain type; no boot nodes, telemetry endpoints, protocol id,
/// properties or extensions; the given code and epoch configuration; the first
/// account as root key; every account and then every stash endowed with 2^60;
/// no BABE, GRANDPA or authority discovery authorities of their own; one
/// session key entry per participant's BABE and GRANDPA key, each with the
/// first participant's stash and account; participant `i` staking 2^59 from
/// its stash with its account as controller, as an invulnerable validator;
/// as many validators as participants.
pub proof fn testnet_chain_spec_contents(
    name: Seq<char>,
    id: Seq<char>,
    chain_type: ChainType,
    code: Seq<u8>,
    epoch_config: BabeEpochConfiguration,
    keys: TestnetKeys,
    spec: ChainSpec,
)
    requires
        keys.accounts@.len() >= 1,
        keys.stashes@.len() == keys.accounts@.len(),
        keys.babe@.len() == keys.accounts@.len(),
        keys.grandpa@.len() == keys.accounts@.len(),
        spec@ == testnet_chain_spec_view(name, id, chain_type, code, epoch_config, keys@),
    ensures
        ({
            let n = keys.accounts@.len() as int;
            let g = spec.genesis;
            &&& spec.name@ == name
            &&& spec.id@ == id
            &&& spec.chain_type == chain_type
            &&& spec.boot_nodes@.len() == 0
            &&& spec.telemetry_endpoints is None
            &&& spec.protocol_id is None
            &&& spec.properties is None
            &&& spec.extensions is None
            &&& g.system.code@ == code
            &&& g.system.changes_trie_config is None
            &&& g.sudo.key@ == keys.accounts@[0]@
            &&& g.balances.balances@.len() == 2 * n
            &&& forall|j: int| 0 <= j < n ==> {
                &&& (#[trigger] g.balances.balances@[j]).0@ == keys.accounts@[j]@
                &&& g.balances.balances@[j].1 == 1152921504606846976
            }
            &&& forall|j: int| n <= j < 2 * n ==> {
                &&& (#[trigger] g.balances.balances@[j]).0@ == keys.stashes@[j - n]@
                &&& g.balances.balances@[j].1 == 1152921504606846976
            }
            &&& g.authority_discovery.keys@.len() == 0
            &&& g.babe.authorities@.len() == 0
            &&& g.grandpa.authorities@.len() == 0
            &&& g.babe.epoch_config == Some(epoch_config)
            &&& g.session.keys@.len() == n
            &&& forall|j: int| 0 <= j < n ==> {
                &&& (#[trigger] g.session.keys@[j]).0@ == keys.stashes@[0]@
                &&& g.session.keys@[j].1@ == keys.accounts@[0]@
                &&& g.session.keys@[j].2.babe@ == keys.babe@[j]@
                &&& g.session.keys@[j].2.grandpa@ == keys.grandpa@[j]@
            }
            &&& g.staking.stakers@.len() == n
            &&& forall|j: int| 0 <= j < n ==> {
                &&& (#[trigger] g.staking.stakers@[j]).0@ == keys.stashes@[j]@
                &&& g.staking.stakers@[j].1@ == keys.accounts@[j]@
                &&& g.staking.stakers@[j].2 == 576460752303423488
                &&& g.staking.stakers@[j].3 is Validator
            }
            &&& g.staking.validator_count == n as u32
            &&& g.staking.minimum_validator_count == n as u32
            &&& g.staking.slash_reward_fraction.parts() == 100_000_000
            &&& g.staking.invulnerables@.len() == n
            &&& forall|j: int| 0 <= j < n ==> (#[trigger] g.staking.invulnerables@[j])@ == keys.stashes@[j]@
            &&& g.staking.remaining == DefaultFields::RuntimeDefaults
            &&& g.transaction_payment == DefaultFields::RuntimeDefaults
        }),
{
    let kv = keys@;
    let n = keys.accounts@.len() as int;
    let g = spec.genesis;
    assert(spec@.boot_nodes.len() == spec.boot_nodes@.len());
    genesis_fields_of_view(
        g,
        code,
        kv.authorities(),
        kv.accounts[0],
        kv.endowed(),
        kv.stakers(),
        epoch_config,
    );
    assert(kv.accounts[0] == keys.accounts@[0]@);
    assert(kv.stashes[0] == keys.stashes@[0]@);
    assert forall|j: int| 0 <= j < n implies {
        &&& (#[trigger] g.balances.balances@[j]).0@ == keys.accounts@[j]@
        &&& g.balances.balances@[j].1 == 1152921504606846976
    } by {
        assert(kv.endowed()[j] == (kv.accounts[j], ENDOWMENT));
        assert(kv.accounts[j] == keys.accounts@[j]@);
    }
    assert forall|j: int| n <= j < 2 * n implies {
        &&& (#[trigger] g.balances.balances@[j]).0@ == keys.stashes@[j - n]@
        &&& g.balances.balances@[j].1 == 1152921504606846976
    } by {
        assert(kv.endowed()[j] == (kv.stashes[j - n], ENDOWMENT));
        assert(kv.stashes[j - n] == keys.stashes@[j - n]@);
    }
    assert forall|j: int| 0 <= j < n implies {
        &&& (#[trigger] g.session.keys@[j]).0@ == keys.stashes@[0]@
        &&& g.session.keys@[j].1@ == keys.accounts@[0]@
        &&& g.session.keys@[j].2.babe@ == keys.babe@[j]@
        &&& g.session.keys@[j].2.grandpa@ == keys.grandpa@[j]@
    } by {
        assert(kv.authorities()[j] == (kv.stashes[0], kv.accounts[0], kv.babe[j], kv.grandpa[j]));
        assert(kv.babe[j] == keys.babe@[j]@);
        assert(kv.grandpa[j] == keys.grandpa@[j]@);
    }
    assert forall|j: int| 0 <= j < n implies {
        &&& (#[trigger] g.staking.stakers@[j]).0@ == keys.stashes@[j]@
        &&& g.staking.stakers@[j].1@ == keys.accounts@[j]@
        &&& g.staking.stakers@[j].2 == 576460752303423488
        &&& g.staking.stakers@[j].3 is Validator
    } by {
        assert(kv.stakers()[j] == (kv.stashes[j], kv.accounts[j], STAKE));
        assert(kv.stashes[j] == keys.stashes@[j]@);
        assert(kv.accounts[j] == keys.accounts@[j]@);
    }
    assert forall|j: int| 0 <= j < n implies (#[trigger] g.staking.invulnerables@[j])@ == keys.stashes@[j]@ by {
        assert(kv.stakers()[j] == (kv.stashes[j], kv.accounts[j], STAKE));
        assert(kv.stashes[j] == keys.stashes@[j]@);
    }
}

/// The sr25519 key of the development URI `//seed`.
pub open spec fn sr25519_dev_key(seed: Seq<char>) -> Seq<u8> {
    sr25519_public_from_suri(seq!['/', '/'] + seed)->Some_0
}

/// The ed25519 key of the development URI `//seed`.
pub open spec fn ed25519_dev_key(seed: Seq<char>) -> Seq<u8> {
    ed25519_public_from_suri(seq!['/', '/'] + seed)->Some_0
}

/// A chain specification of the development participants Alice, Bob, Charlie,
/// Dave, Eve and Ferdie with the given names, type, code and epoch
/// configuration, spelled out field by field over the keys of their
/// development URIs.
pub open spec fn is_dev_participants_spec(
    spec: ChainSpec,
    name: Seq<char>,
    id: Seq<char>,
    chain_type: ChainType,
    code: Seq<u8>,
    epoch_config: BabeEpochConfiguration,
) -> bool {
    let names = seq!["Alice"@, "Bob"@, "Charlie"@, "Dave"@, "Eve"@, "Ferdie"@];
    let stashes = seq![
        "Alice//stash"@,
        "Bob//stash"@,
        "Charlie//stash"@,
        "Dave//stash"@,
        "Eve//stash"@,
        "Ferdie//stash"@,
    ];
    let g = spec.genesis;
    &&& spec.name@ == name
    &&& spec.id@ == id
    &&& spec.chain_type == chain_type
    &&& spec.boot_nodes@.len() == 0
    &&& spec.telemetry_endpoints is None
    &&& spec.protocol_id is None
    &&& spec.properties is None
    &&& spec.extensions is None
    &&& g.system.code@ == code
    &&& g.system.changes_trie_config is None
    &&& g.sudo.key@ == sr25519_dev_key("Alice"@)
    &&& g.balances.balances@.len() == 12
    &&& forall|j: int| 0 <= j < 6 ==> {
        &&& (#[trigger] g.balances.balances@[j]).0@ == sr25519_dev_key(names[j])
        &&& g.balances.balances@[j].1 == 1152921504606846976
    }
    &&& forall|j: int| 6 <= j < 12 ==> {
        &&& (#[trigger] g.balances.balances@[j]).0@ == sr25519_dev_key(stashes[j - 6])
        &&& g.balances.balances@[j].1 == 1152921504606846976
    }
    &&& g.authority_discovery.keys@.len() == 0
    &&& g.babe.authorities@.len() == 0
    &&& g.grandpa.authorities@.len() == 0
    &&& g.babe.epoch_config == Some(epoch_config)
    &&& g.session.keys@.len() == 6
    &&& forall|j: int| 0 <= j < 6 ==> {
        &&& (#[trigger] g.session.keys@[j]).0@ == sr25519_dev_key("Alice//stash"@)
        &&& g.session.keys@[j].1@ == sr25519_dev_key("Alice"@)
        &&& g.session.keys@[j].2.babe@ == sr25519_dev_key(names[j])
        &&& g.session.keys@[j].2.grandpa@ == ed25519_dev_key(names[j])
    }
    &&& g.staking.stakers@.len() == 6
    &&& forall|j: int| 0 <= j < 6 ==> {
        &&& (#[trigger] g.staking.stakers@[j]).0@ == sr25519_dev_key(stashes[j])
        &&& g.staking.stakers@[j].1@ == sr25519_dev_key(names[j])
        &&& g.staking.stakers@[j].2 == 576460752303423488
        &&& g.staking.stakers@[j].3 is Validator
    }
    &&& g.staking.validator_count == 6
    &&& g.staking.minimum_validator_count == 6
    &&& g.staking.slash_reward_fraction.parts() == 100_000_000
    &&& g.staking.invulnerables@.len() == 6
    &&& forall|j: int| 0 <= j < 6 ==> (#[trigger] g.staking.invulnerables@[j])@ == sr25519_dev_key(stashes[j])
    &&& g.staking.remaining == DefaultFields::RuntimeDefaults
    &&& g.transaction_payment == DefaultFields::RuntimeDefaults
}

/// A network of the development participants, read field by field.
proof fn dev_network_fields(
    name: Seq<char>,
    id: Seq<char>,
    chain_type: ChainType,
    code: Seq<u8>,
    epoch_config: BabeEpochConfiguration,
    spec: ChainSpec,
)
    requires
        spec@ == testnet_chain_spec_view(name, id, chain_type, code, epoch_config, dev_keys_view()),
    ensures
        is_dev_participants_spec(spec, name, id, chain_type, code, epoch_config),
{
    let kv = dev_keys_view();
    let names = seq!["Alice"@, "Bob"@, "Charlie"@, "Dave"@, "Eve"@, "Ferdie"@];
    let stashes = seq![
        "Alice//stash"@,
        "Bob//stash"@,
        "Charlie//stash"@,
        "Dave//stash"@,
        "Eve//stash"@,
        "Ferdie//stash"@,
    ];
    assert(names =~= dev_names());
    assert(stashes =~= dev_stash_names());
    let g = spec.genesis;
    assert(spec@.boot_nodes.len() == spec.boot_nodes@.len());
    genesis_fields_of_view(
        g,
        code,
        kv.authorities(),
        kv.accounts[0],
        kv.endowed(),
        kv.stakers(),
        epoch_config,
    );
    assert(kv.accounts[0] == sr25519_dev_key("Alice"@));
    assert(kv.stashes[0] == sr25519_dev_key("Alice//stash"@));
    assert forall|j: int| 0 <= j < 6 implies {
        &&& (#[trigger] g.balances.balances@[j]).0@ == sr25519_dev_key(names[j])
        &&& g.balances.balances@[j].1 == 1152921504606846976
    } by {
        assert(kv.endowed()[j] == (kv.accounts[j], ENDOWMENT));
        assert(kv.accounts[j] == sr25519_dev_key(names[j]));
    }
    assert forall|j: int| 6 <= j < 12 implies {
        &&& (#[trigger] g.balances.balances@[j]).0@ == sr25519_dev_key(stashes[j - 6])
        &&& g.balances.balances@[j].1 == 1152921504606846976
    } by {
        assert(kv.endowed()[j] == (kv.stashes[j - 6], ENDOWMENT));
        assert(kv.stashes[j - 6] == sr25519_dev_key(stashes[j - 6]));
    }
    assert forall|j: int| 0 <= j < 6 implies {
        &&& (#[trigger] g.session.keys@[j]).0@ == sr25519_dev_key("Alice//stash"@)
        &&& g.session.keys@[j].1@ == sr25519_dev_key("Alice"@)
        &&& g.session.keys@[j].2.babe@ == sr25519_dev_key(names[j])
        &&& g.session.keys@[j].2.grandpa@ == ed25519_dev_key(names[j])
    } by {
        assert(kv.authorities()[j] == (kv.stashes[0], kv.accounts[0], kv.babe[j], kv.grandpa[j]));
        assert(kv.babe[j] == sr25519_dev_key(names[j]));
        assert(kv.grandpa[j] == ed25519_dev_key(names[j]));
    }
    assert forall|j: int| 0 <= j < 6 implies {
        &&& (#[trigger] g.staking.stakers@[j]).0@ == sr25519_dev_key(stashes[j])
        &&& g.staking.stakers@[j].1@ == sr25519_dev_key(names[j])
        &&& g.staking.stakers@[j].2 == 576460752303423488
        &&& g.staking.stakers@[j].3 is Validator
    } by {
        assert(kv.stakers()[j] == (kv.stashes[j], kv.accounts[j], STAKE));
        assert(kv.stashes[j] == sr25519_dev_key(stashes[j]));
        assert(kv.accounts[j] == sr25519_dev_key(names[j]));
    }
    assert forall|j: int| 0 <= j < 6 implies (#[trigger] g.staking.invulnerables@[j])@ == sr25519_dev_key(stashes[j]) by {
        assert(kv.stakers()[j] == (kv.stashes[j], kv.accounts[j], STAKE));
        assert(kv.stashes[j] == sr25519_dev_key(stashes[j]));
    }
}

/// What `development_config` returns, for every runtime code and epoch
/// configuration: without code the error "Development wasm not available";
/// with code the "Development" chain ("dev", development type) of the six
/// development participants, carrying that code and that epoch configuration.
pub proof fn development_config_contents(
    wasm_binary: Option<Seq<u8>>,
    epoch_config: BabeEpochConfiguration,
    r: Result<ChainSpec, String>,
)
    requires
        development_config_result(wasm_binary, epoch_config, r),
    ensures
        wasm_binary is None ==> (r matches Err(e) && e@ == "Development wasm not available"@),
        wasm_binary matches Some(code) ==> (r matches Ok(spec) && is_dev_participants_spec(
            spec,
            "Development"@,
            "dev"@,
            ChainType::Development,
            code,
            epoch_config,
        )),
{
    if let Some(code) = wasm_binary {
        if let Ok(spec) = r {
            dev_network_fields("Development"@, "dev"@, ChainType::Development, code, epoch_config, spec);
        }
    }
}

/// What `local_testnet_config` returns, for every runtime code and epoch
/// configuration: without code the error "Development wasm not available";
/// with code the "Local Testnet" chain ("local_testnet", local type) of the six
/// development participants, carrying that code and that epoch configuration.
pub proof fn local_testnet_config_contents(
    wasm_binary: Option<Seq<u8>>,
    epoch_config: BabeEpochConfiguration,
    r: Result<ChainSpec, String>,
)
    requires
        local_testnet_config_result(wasm_binary, epoch_config, r),
    ensures
        wasm_binary is None ==> (r matches Err(e) && e@ == "Development wasm not available"@),
        wasm_binary matches Some(code) ==> (r matches Ok(spec) && is_dev_participants_spec(
            spec,
            "Local Testnet"@,
            "local_testnet"@,
            ChainType::Local,
            code,
            epoch_config,
        )),
{
    if let Some(code) = wasm_binary {
        if let Ok(spec) = r {
            dev_network_fields("Local Testnet"@, "local_testnet"@, ChainType::Local, code, epoch_config, spec);
        }
    }
}

} // verus!
