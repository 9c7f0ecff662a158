use node_template::keys::{
    account_of_public, derives_from_seed, dev_suri, get_account_id_from_seed, get_from_seed,
    public_from_secret_uri, try_get_account_id_from_seed, try_get_from_seed, AccountId, KeyScheme,
};

fn hex32(s: &str) -> [u8; 32] {
    let mut out = [0u8; 32];
    for i in 0..32 {
        out[i] = u8::from_str_radix(&s[2 * i..2 * i + 2], 16).unwrap();
    }
    out
}

const ALICE_SR25519: &str = "d43593c715fdd31c61141abd04a99fd6822c8558854ccde39a5684e7a56da27d";
const BOB_SR25519: &str = "8eaf04151687736326c9fea17e25fc5287613693c912909cb226aa4794f26a48";
const ALICE_ED25519: &str = "88dc3417d5058ec4b4503e0c12ea1a0a89be200fe98922423d4334014fa6b0ee";
const ALICE_STASH_SR25519: &str = "be5ddb1579b72e84524fc29e78609e3caf42e85aa118ebfe0b0ad404b5bdd25f";

#[test]
fn dev_suri_prefixes_a_hard_path() {
    assert_eq!(dev_suri("Alice"), "//Alice");
    assert_eq!(dev_suri("Alice//stash"), "//Alice//stash");
}

#[test]
fn alice_sr25519_key_is_the_well_known_one() {
    assert_eq!(get_from_seed(KeyScheme::Sr25519, "Alice"), hex32(ALICE_SR25519));
    assert_eq!(get_from_seed(KeyScheme::Sr25519, "Bob"), hex32(BOB_SR25519));
}

#[test]
fn alice_ed25519_key_is_the_well_known_one() {
    assert_eq!(get_from_seed(KeyScheme::Ed25519, "Alice"), hex32(ALICE_ED25519));
}

#[test]
fn alice_stash_account_is_the_well_known_one() {
    assert_eq!(
        get_account_id_from_seed(KeyScheme::Sr25519, "Alice//stash"),
        AccountId(hex32(ALICE_STASH_SR25519))
    );
}

#[test]
fn account_id_of_a_seed_is_its_public_key() {
    let public = get_from_seed(KeyScheme::Sr25519, "Charlie");
    assert_eq!(get_account_id_from_seed(KeyScheme::Sr25519, "Charlie"), AccountId(public));
    let public = get_from_seed(KeyScheme::Ed25519, "Dave");
    assert_eq!(get_account_id_from_seed(KeyScheme::Ed25519, "Dave"), AccountId(public));
}

#[test]
fn account_of_public_keeps_the_bytes() {
    let bytes = hex32(BOB_SR25519);
    assert_eq!(account_of_public(KeyScheme::Sr25519, bytes), AccountId(bytes));
    assert_eq!(account_of_public(KeyScheme::Ed25519, bytes), AccountId(bytes));
}

#[test]
fn empty_seed_yields_no_key() {
    assert!(!derives_from_seed(KeyScheme::Sr25519, ""));
    assert_eq!(try_get_from_seed(KeyScheme::Sr25519, ""), None);
    assert_eq!(try_get_account_id_from_seed(KeyScheme::Ed25519, ""), None);
}

#[test]
fn soft_path_yields_no_ed25519_key_but_an_sr25519_one() {
    assert!(derives_from_seed(KeyScheme::Sr25519, "Alice/soft"));
    assert!(!derives_from_seed(KeyScheme::Ed25519, "Alice/soft"));
    assert_eq!(try_get_from_seed(KeyScheme::Ed25519, "Alice/soft"), None);
}

#[test]
fn try_get_from_seed_gives_the_key_where_it_derives() {
    assert_eq!(try_get_from_seed(KeyScheme::Sr25519, "Alice"), Some(hex32(ALICE_SR25519)));
    assert_eq!(
        try_get_account_id_from_seed(KeyScheme::Sr25519, "Bob"),
        Some(AccountId(hex32(BOB_SR25519)))
    );
}

#[test]
fn public_from_secret_uri_reads_the_uri_as_given() {
    assert_eq!(public_from_secret_uri(KeyScheme::Sr25519, "//Alice"), Some(hex32(ALICE_SR25519)));
    assert_eq!(public_from_secret_uri(KeyScheme::Sr25519, "not a valid uri!"), None);
}
