//! Development keys: public keys derived from the well-known development phrase.

use vstd::prelude::*;
use vstd::string::*;
use sp_core::Pair;
use sp_runtime::traits::IdentifyAccount;

verus! {

/// The signature schemes whose keys this node hands out at genesis.
#[derive(Clone, Copy, Debug, PartialEq, Eq)]
pub enum KeyScheme {
    /// Schnorr over Ristretto25519 (BABE keys and accounts).
    Sr25519,
    /// Ed25519 (GRANDPA keys).
    Ed25519,
}

/// An account on chain: the 32 bytes of an `AccountId32`.
#[derive(Clone, Copy, Debug, PartialEq, Eq)]
pub struct AccountId(pub [u8; 32]);

/// A BABE authority key: an sr25519 public key.
#[derive(Clone, Copy, Debug, PartialEq, Eq)]
pub struct BabeId(pub [u8; 32]);

/// A GRANDPA authority key: an ed25519 public key.
#[derive(Clone, Copy, Debug, PartialEq, Eq)]
pub struct GrandpaId(pub [u8; 32]);

/// An authority discovery key: an sr25519 public key.
#[derive(Clone, Copy, Debug, PartialEq, Eq)]
pub struct AuthorityDiscoveryId(pub [u8; 32]);

impl View for AccountId {
    type V = Seq<u8>;

    open spec fn view(&self) -> Seq<u8> {
        self.0@
    }
}

impl View for BabeId {
    type V = Seq<u8>;

    open spec fn view(&self) -> Seq<u8> {
        self.0@
    }
}

impl View for GrandpaId {
    type V = Seq<u8>;

    open spec fn view(&self) -> Seq<u8> {
        self.0@
    }
}

impl View for AuthorityDiscoveryId {
    type V = Seq<u8>;

    open spec fn view(&self) -> Seq<u8> {
        self.0@
    }
}

/// The public key that `sp_core::sr25519::Pair::from_string(suri, None)` yields,
/// or `None` where that call returns an error.
pub uninterp spec fn sr25519_public_from_suri(suri: Seq<char>) -> Option<Seq<u8>>;

/// The public key that `sp_core::ed25519::Pair::from_string(suri, None)` yields,
/// or `None` where that call returns an error.
pub uninterp spec fn ed25519_public_from_suri(suri: Seq<char>) -> Option<Seq<u8>>;

/// An optional 32-byte key, taken by its bytes.
pub open spec fn opt_key_view(k: Option<[u8; 32]>) -> Option<Seq<u8>> {
    match k {
        Some(bytes) => Some(bytes@),
        None => None,
    }
}

/// Calls `sp_core::sr25519::Pair::from_string(suri, None)` and hands out the
/// public key of the pair. Trusted: the result is the named value
/// `sr25519_public_from_suri(suri)`; nothing is claimed of which URIs succeed.
#[verifier::external_body]
fn sr25519_pair_public(suri: &str) -> (r: Option<[u8; 32]>)
    ensures
        opt_key_view(r) == sr25519_public_from_suri(suri@),
{
    match sp_core::sr25519::Pair::from_string(suri, None) {
        Ok(pair) => Some(pair.public().0),
        Err(_) => None,
    }
}

/// Calls `sp_core::ed25519::Pair::from_string(suri, None)` and hands out the
/// public key of the pair. Trusted: the result is the named value
/// `ed25519_public_from_suri(suri)`; nothing is claimed of which URIs succeed.
#[verifier::external_body]
fn ed25519_pair_public(suri: &str) -> (r: Option<[u8; 32]>)
    ensures
        opt_key_view(r) == ed25519_public_from_suri(suri@),
{
    match sp_core::ed25519::Pair::from_string(suri, None) {
        Ok(pair) => Some(pair.public().0),
        Err(_) => None,
    }
}

/// Converts a public key into a `sp_runtime::MultiSigner` and calls
/// `IdentifyAccount::into_account` on it. Trusted: for sr25519 and ed25519
/// signers the source of `into_account` copies the 32 key bytes into the
/// `AccountId32`, which is what the contract states.
#[verifier::external_body]
fn multi_signer_account(scheme: KeyScheme, public: [u8; 32]) -> (account: [u8; 32])
    ensures
        account@ == public@,
{
    let signer = match scheme {
        KeyScheme::Sr25519 => sp_runtime::MultiSigner::from(sp_core::sr25519::Public::from_raw(public)),
        KeyScheme::Ed25519 => sp_runtime::MultiSigner::from(sp_core::ed25519::Public::from_raw(public)),
    };
    let account: sp_runtime::AccountId32 = signer.into_account();
    *<sp_runtime::AccountId32 as AsRef<[u8; 32]>>::as_ref(&account)
}

/// The public key of `scheme` that a secret URI yields, if it yields one.
pub open spec fn public_from_suri(scheme: KeyScheme, suri: Seq<char>) -> Option<Seq<u8>> {
    match scheme {
        KeyScheme::Sr25519 => sr25519_public_from_suri(suri),
        KeyScheme::Ed25519 => ed25519_public_from_suri(suri),
    }
}

/// The secret URI of a development seed: the seed as a hard derivation path
/// of the development phrase, `//seed`.
pub open spec fn dev_suri_of(seed: Seq<char>) -> Seq<char> {
    seq!['/', '/'] + seed
}

/// Whether the development seed yields a key of `scheme`.
pub open spec fn seed_derives(scheme: KeyScheme, seed: Seq<char>) -> bool {
    public_from_suri(scheme, dev_suri_of(seed)) is Some
}

/// The public key of `scheme` that a development seed yields.
pub open spec fn seed_public(scheme: KeyScheme, seed: Seq<char>) -> Seq<u8> {
    public_from_suri(scheme, dev_suri_of(seed))->Some_0
}

/// The secret URI `//seed` of a development seed.
pub fn dev_suri(seed: &str) -> (suri: String)
    ensures
        suri@ == dev_suri_of(seed@),
{
    let mut suri = String::from_str("//");
    proof {
        reveal_strlit("//");
    }
    suri.append(seed);
    suri
}

/// The public key of `scheme` that a secret URI yields, if it yields one.
pub fn public_from_secret_uri(scheme: KeyScheme, suri: &str) -> (r: Option<[u8; 32]>)
    ensures
        opt_key_view(r) == public_from_suri(scheme, suri@),
{
    match scheme {
        KeyScheme::Sr25519 => sr25519_pair_public(suri),
        KeyScheme::Ed25519 => ed25519_pair_public(suri),
    }
}

/// Whether the development seed yields a key of `scheme`.
pub fn derives_from_seed(scheme: KeyScheme, seed: &str) -> (b: bool)
    ensures
        b == seed_derives(scheme, seed@),
{
    let suri = dev_suri(seed);
    public_from_secret_uri(scheme, suri.as_str()).is_some()
}

/// Generates the public key of `scheme` from a development seed.
pub fn get_from_seed(scheme: KeyScheme, seed: &str) -> (public: [u8; 32])
    requires
        seed_derives(scheme, seed@),
    ensures
        public@ == seed_public(scheme, seed@),
{
    let suri = dev_suri(seed);
    match public_from_secret_uri(scheme, suri.as_str()) {
        Some(public) => public,
        None => vstd::pervasive::unreached(),
    }
}

/// The public key of `scheme` of a development seed, or `None` where the seed
/// yields no key.
pub fn try_get_from_seed(scheme: KeyScheme, seed: &str) -> (r: Option<[u8; 32]>)
    ensures
        r is Some <==> seed_derives(scheme, seed@),
        r matches Some(public) ==> public@ == seed_public(scheme, seed@),
{
    if derives_from_seed(scheme, seed) {
        Some(get_from_seed(scheme, seed))
    } else {
        None
    }
}

/// The account of a public key of `scheme`: the account id that
/// `MultiSigner::into_account` gives, which holds the key's own bytes.
pub fn account_of_public(scheme: KeyScheme, public: [u8; 32]) -> (account: AccountId)
    ensures
        account@ == public@,
{
    AccountId(multi_signer_account(scheme, public))
}

/// Generates the account id of a development seed: the account of the
/// seed's public key of `scheme`.
pub fn get_account_id_from_seed(scheme: KeyScheme, seed: &str) -> (account: AccountId)
    requires
        seed_derives(scheme, seed@),
    ensures
        account@ == seed_public(scheme, seed@),
{
    account_of_public(scheme, get_from_seed(scheme, seed))
}

/// The account id of a development seed, or `None` where the seed yields no key.
pub fn try_get_account_id_from_seed(scheme: KeyScheme, seed: &str) -> (r: Option<AccountId>)
    ensures
        r is Some <==> seed_derives(scheme, seed@),
        r matches Some(account) ==> account@ == seed_public(scheme, seed@),
{
    if derives_from_seed(scheme, seed) {
        Some(get_account_id_from_seed(scheme, seed))
    } else {
        None
    }
}

/// The key that the secret URI `//seed` yields for `scheme`, read straight
/// from the derivation of each scheme.
pub open spec fn key_of_uri(scheme: KeyScheme, uri: Seq<char>) -> Option<Seq<u8>> {
    match scheme {
        KeyScheme::Sr25519 => sr25519_public_from_suri(uri),
        KeyScheme::Ed25519 => ed25519_public_from_suri(uri),
    }
}

/// `get_from_seed` hands out the key of the URI made of `//` and the seed
/// itself: for every scheme and every seed whose URI yields a key.
pub proof fn get_from_seed_is_the_key_of_its_uri(scheme: KeyScheme, seed: Seq<char>, public: [u8; 32])
    requires
        key_of_uri(scheme, seq!['/', '/'] + seed) is Some,
        public@ == seed_public(scheme, seed),
    ensures
        public@ == key_of_uri(scheme, seq!['/', '/'] + seed)->Some_0,
        seed_derives(scheme, seed),
{
}

/// `try_get_from_seed` hands out a key exactly when the URI `//seed` yields
/// one, and then that key.
pub proof fn try_get_from_seed_is_the_key_of_its_uri(
    scheme: KeyScheme,
    seed: Seq<char>,
    r: Option<[u8; 32]>,
)
    requires
        r is Some <==> seed_derives(scheme, seed),
        r matches Some(public) ==> public@ == seed_public(scheme, seed),
    ensures
        r is Some <==> key_of_uri(scheme, seq!['/', '/'] + seed) is Some,
        r matches Some(public) ==> public@ == key_of_uri(scheme, seq!['/', '/'] + seed)->Some_0,
{
}

/// The account id of a seed holds the bytes of the key of the URI `//seed`.
pub proof fn account_id_is_the_key_of_its_uri(scheme: KeyScheme, seed: Seq<char>, account: AccountId)
    requires
        key_of_uri(scheme, seq!['/', '/'] + seed) is Some,
        account@ == seed_public(scheme, seed),
    ensures
        account.0@ == key_of_uri(scheme, seq!['/', '/'] + seed)->Some_0,
{
}

} // verus!
