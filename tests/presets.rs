use senate_gate::genesis::{
    authority_keys_from_seed, development_config_genesis, get_account_id_from_seed, get_from_seed, get_preset,
    local_config_genesis, preset_names, testnet_genesis, AuthorityKeys, ENDOWMENT, GRANDPA_WEIGHT,
};

fn uris(seeds: &[&str]) -> Vec<String> {
    seeds.iter().map(|s| format!("//{}", s)).collect()
}

#[test]
fn derivation_uri_prefixes_seed() {
    assert_eq!(get_from_seed("Alice"), "//Alice");
    assert_eq!(get_account_id_from_seed("Bob//stash"), "//Bob//stash");
    assert_eq!(get_from_seed(""), "//");
    let keys = authority_keys_from_seed("Eve");
    assert_eq!(keys.aura, "//Eve");
    assert_eq!(keys.grandpa, "//Eve");
}

#[test]
fn testnet_genesis_endows_every_account() {
    let g = testnet_genesis(
        vec![AuthorityKeys { aura: "a1".to_string(), grandpa: "g1".to_string() }],
        vec!["x".to_string(), "y".to_string()],
        "root".to_string(),
        vec!["m".to_string()],
    );
    assert_eq!(g.balances, vec![("x".to_string(), 1u128 << 60), ("y".to_string(), 1u128 << 60)]);
    assert_eq!(ENDOWMENT, 1u128 << 60);
    assert_eq!(g.aura_authorities, vec!["a1".to_string()]);
    assert_eq!(g.grandpa_authorities, vec![("g1".to_string(), GRANDPA_WEIGHT)]);
    assert_eq!(GRANDPA_WEIGHT, 1);
    assert_eq!(g.sudo_key, Some("root".to_string()));
    assert_eq!(g.senate_members, vec!["m".to_string()]);
}

#[test]
fn testnet_genesis_with_no_accounts() {
    let g = testnet_genesis(vec![], vec![], "r".to_string(), vec![]);
    assert!(g.balances.is_empty());
    assert!(g.aura_authorities.is_empty());
    assert!(g.grandpa_authorities.is_empty());
    assert!(g.senate_members.is_empty());
}

#[test]
fn development_preset_contents() {
    let g = development_config_genesis();
    let endowed: Vec<String> = g.balances.iter().map(|b| b.0.clone()).collect();
    assert_eq!(endowed, uris(&["Alice", "Bob", "Alice//stash", "Bob//stash"]));
    assert!(g.balances.iter().all(|b| b.1 == 1u128 << 60));
    assert_eq!(g.aura_authorities, uris(&["Alice"]));
    assert_eq!(g.grandpa_authorities, vec![("//Alice".to_string(), 1)]);
    assert_eq!(g.sudo_key, Some("//Alice".to_string()));
    assert_eq!(g.senate_members, uris(&["Bob", "Charlie"]));
}

#[test]
fn local_preset_contents() {
    let g = local_config_genesis();
    assert_eq!(g.balances.len(), 12);
    assert_eq!(g.balances[5].0, "//Ferdie");
    assert_eq!(g.balances[11].0, "//Ferdie//stash");
    assert_eq!(g.aura_authorities, uris(&["Alice", "Bob"]));
    assert_eq!(g.grandpa_authorities, vec![("//Alice".to_string(), 1), ("//Bob".to_string(), 1)]);
    assert_eq!(g.sudo_key, Some("//Alice".to_string()));
    assert_eq!(g.senate_members, uris(&["Bob", "Charlie"]));
}

#[test]
fn presets_by_name() {
    assert_eq!(preset_names(), vec!["development".to_string(), "local_testnet".to_string()]);
    assert_eq!(get_preset("development").unwrap().aura_authorities.len(), 1);
    assert_eq!(get_preset("local_testnet").unwrap().aura_authorities.len(), 2);
    assert!(get_preset("staging").is_none());
    assert!(get_preset("").is_none());
}
