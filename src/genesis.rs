//! Genesis presets of the chain: the endowed accounts, the block authors
//! and finality voters, the superuser, and the first members of the
//! collective.
//!
//! Keys and accounts are named by the secret derivation URI (`//Alice`)
//! from which the development key pairs are derived; deriving the pairs
//! themselves is left to the embedding node.
use vstd::prelude::*;
use vstd::string::StringExecFns;

verus! {

/// The secret derivation URI of the development key named `seed`.
pub open spec fn dev_uri(seed: Seq<char>) -> Seq<char> {
    seq!['/', '/'] + seed
}

/// The secret derivation URI `//seed` of the development key pair named
/// `seed`: the text that stands for that pair's public key here.
pub fn get_from_seed(seed: &str) -> (r: String)
    ensures
        r@ == dev_uri(seed@),
{
    let mut r = "//".to_owned();
    proof {
        reveal_strlit("//");
    }
    r.append(seed);
    r
}

/// The derivation URI `//seed` of the development account named `seed`:
/// the text that stands for that account here (an account is the public
/// key of its pair).
pub fn get_account_id_from_seed(seed: &str) -> (r: String)
    ensures
        r@ == dev_uri(seed@),
{
    get_from_seed(seed)
}

/// The block-authoring and finality keys of one authority, each given by
/// its derivation URI.
#[derive(Debug)]
pub struct AuthorityKeys {
    pub aura: String,
    pub grandpa: String,
}

/// The derivation URIs of both keys of the authority named `s`: its
/// block-authoring and its finality key are derived from the same URI
/// `//s`, each in its own signature scheme.
pub fn authority_keys_from_seed(s: &str) -> (r: AuthorityKeys)
    ensures
        r.aura@ == dev_uri(s@),
        r.grandpa@ == dev_uri(s@),
{
    AuthorityKeys { aura: get_from_seed(s), grandpa: get_from_seed(s) }
}

/// The balance given to each endowed account: 2^60 units.
pub const ENDOWMENT: u128 = 1152921504606846976;

/// The voting weight of each finality authority.
pub const GRANDPA_WEIGHT: u64 = 1;

/// The initial state of the chain's pallets.
#[derive(Debug)]
pub struct GenesisConfig {
    /// Each endowed account with its balance.
    pub balances: Vec<(String, u128)>,
    /// The block authors, in order.
    pub aura_authorities: Vec<String>,
    /// The finality voters, in order, with their voting weight.
    pub grandpa_authorities: Vec<(String, u64)>,
    /// The superuser.
    pub sudo_key: Option<String>,
    /// The first members of the collective.
    pub senate_members: Vec<String>,
}

/// The text of each string of `v`.
pub open spec fn texts(v: Seq<String>) -> Seq<Seq<char>> {
    v.map_values(|s: String| s@)
}

impl GenesisConfig {
    /// `self` is the genesis built from these authorities (block-authoring
    /// key, finality key), endowed accounts, superuser and collective
    /// members: every endowed account gets `ENDOWMENT`, every finality
    /// authority weight `GRANDPA_WEIGHT`, and the order of each list is
    /// kept.
    pub open spec fn built_from(
        self,
        authorities: Seq<(Seq<char>, Seq<char>)>,
        endowed: Seq<Seq<char>>,
        root: Seq<char>,
        senate: Seq<Seq<char>>,
    ) -> bool {
        &&& self.balances@.len() == endowed.len()
        &&& forall|i: int| 0 <= i < endowed.len() ==> {
            &&& (#[trigger] self.balances@[i]).0@ == endowed[i]
            &&& self.balances@[i].1 == ENDOWMENT
        }
        &&& self.aura_authorities@.len() == authorities.len()
        &&& self.grandpa_authorities@.len() == authorities.len()
        &&& forall|i: int| 0 <= i < authorities.len() ==> {
            &&& (#[trigger] self.aura_authorities@[i])@ == authorities[i].0
            &&& self.grandpa_authorities@[i].0@ == authorities[i].1
            &&& self.grandpa_authorities@[i].1 == GRANDPA_WEIGHT
        }
        &&& self.sudo_key is Some
        &&& self.sudo_key->Some_0@ == root
        &&& texts(self.senate_members@) == senate
    }
}

/// The two keys of each authority of `v`.
pub open spec fn key_texts(v: Seq<AuthorityKeys>) -> Seq<(Seq<char>, Seq<char>)> {
    v.map_values(|k: AuthorityKeys| (k.aura@, k.grandpa@))
}

/// Builds the genesis from the given authorities, endowed accounts,
/// superuser `root` and collective members.
pub fn testnet_genesis(
    initial_authorities: Vec<AuthorityKeys>,
    endowed_accounts: Vec<String>,
    root: String,
    senate_members: Vec<String>,
) -> (r: GenesisConfig)
    ensures
        r.built_from(key_texts(initial_authorities@), texts(endowed_accounts@), root@, texts(senate_members@)),
{
    let mut balances: Vec<(String, u128)> = Vec::new();
    let mut i: usize = 0;
    while i < endowed_accounts.len()
        invariant
            i <= endowed_accounts@.len(),
            balances@.len() == i,
            forall|j: int| 0 <= j < i ==> {
                &&& (#[trigger] balances@[j]).0@ == endowed_accounts@[j]@
                &&& balances@[j].1 == ENDOWMENT
            },
        decreases endowed_accounts@.len() - i,
    {
        balances.push((endowed_accounts[i].clone(), ENDOWMENT));
        i = i + 1;
    }
    let mut aura: Vec<String> = Vec::new();
    let mut grandpa: Vec<(String, u64)> = Vec::new();
    let mut k: usize = 0;
    while k < initial_authorities.len()
        invariant
            k <= initial_authorities@.len(),
            aura@.len() == k,
            grandpa@.len() == k,
            forall|j: int| 0 <= j < k ==> (#[trigger] aura@[j])@ == initial_authorities@[j].aura@,
            forall|j: int| 0 <= j < k ==> {
                &&& (#[trigger] grandpa@[j]).0@ == initial_authorities@[j].grandpa@
                &&& grandpa@[j].1 == GRANDPA_WEIGHT
            },
        decreases initial_authorities@.len() - k,
    {
        aura.push(initial_authorities[k].aura.clone());
        grandpa.push((initial_authorities[k].grandpa.clone(), GRANDPA_WEIGHT));
        k = k + 1;
    }
    GenesisConfig {
        balances,
        aura_authorities: aura,
        grandpa_authorities: grandpa,
        sudo_key: Some(root),
        senate_members,
    }
}

/// The one authority of the development chain, whose keys both derive
/// from `//Alice`.
pub open spec fn alice_authority() -> (Seq<char>, Seq<char>) {
    (dev_uri("Alice"@), dev_uri("Alice"@))
}

/// `g` is the development genesis: Alice authors and finalizes alone and
/// is the superuser, Alice, Bob and their stash accounts are endowed, and
/// Bob and Charlie form the collective.
pub open spec fn is_development_genesis(g: GenesisConfig) -> bool {
    g.built_from(
        seq![alice_authority()],
        seq![dev_uri("Alice"@), dev_uri("Bob"@), dev_uri("Alice//stash"@), dev_uri("Bob//stash"@)],
        dev_uri("Alice"@),
        seq![dev_uri("Bob"@), dev_uri("Charlie"@)],
    )
}

/// `g` is the local testnet genesis: Alice and Bob author and finalize,
/// the six well-known accounts and their stash accounts are endowed, Alice
/// is the superuser, and Bob and Charlie form the collective.
pub open spec fn is_local_genesis(g: GenesisConfig) -> bool {
    g.built_from(
        seq![alice_authority(), (dev_uri("Bob"@), dev_uri("Bob"@))],
        seq![
            dev_uri("Alice"@),
            dev_uri("Bob"@),
            dev_uri("Charlie"@),
            dev_uri("Dave"@),
            dev_uri("Eve"@),
            dev_uri("Ferdie"@),
            dev_uri("Alice//stash"@),
            dev_uri("Bob//stash"@),
            dev_uri("Charlie//stash"@),
            dev_uri("Dave//stash"@),
            dev_uri("Eve//stash"@),
            dev_uri("Ferdie//stash"@),
        ],
        dev_uri("Alice"@),
        seq![dev_uri("Bob"@), dev_uri("Charlie"@)],
    )
}

/// The genesis of the development chain.
pub fn development_config_genesis() -> (r: GenesisConfig)
    ensures
        is_development_genesis(r),
{
    let authorities = vec![authority_keys_from_seed("Alice")];
    let endowed = vec![
        get_account_id_from_seed("Alice"),
        get_account_id_from_seed("Bob"),
        get_account_id_from_seed("Alice//stash"),
        get_account_id_from_seed("Bob//stash"),
    ];
    let root = get_account_id_from_seed("Alice");
    let senate = vec![get_account_id_from_seed("Bob"), get_account_id_from_seed("Charlie")];
    proof {
        assert(key_texts(authorities@) =~= seq![alice_authority()]);
        assert(texts(endowed@) =~= seq![
            dev_uri("Alice"@),
            dev_uri("Bob"@),
            dev_uri("Alice//stash"@),
            dev_uri("Bob//stash"@),
        ]);
        assert(texts(senate@) =~= seq![dev_uri("Bob"@), dev_uri("Charlie"@)]);
    }
    testnet_genesis(authorities, endowed, root, senate)
}

/// The genesis of the local testnet.
pub fn local_config_genesis() -> (r: GenesisConfig)
    ensures
        is_local_genesis(r),
{
    let authorities = vec![authority_keys_from_seed("Alice"), authority_keys_from_seed("Bob")];
    let endowed = vec![
        get_account_id_from_seed("Alice"),
        get_account_id_from_seed("Bob"),
        get_account_id_from_seed("Charlie"),
        get_account_id_from_seed("Dave"),
        get_account_id_from_seed("Eve"),
        get_account_id_from_seed("Ferdie"),
        get_account_id_from_seed("Alice//stash"),
        get_account_id_from_seed("Bob//stash"),
        get_account_id_from_seed("Charlie//stash"),
        get_account_id_from_seed("Dave//stash"),
        get_account_id_from_seed("Eve//stash"),
        get_account_id_from_seed("Ferdie//stash"),
    ];
    let root = get_account_id_from_seed("Alice");
    let senate = vec![get_account_id_from_seed("Bob"), get_account_id_from_seed("Charlie")];
    proof {
        assert(key_texts(authorities@) =~= seq![alice_authority(), (dev_uri("Bob"@), dev_uri("Bob"@))]);
        assert(texts(endowed@) =~= seq![
            dev_uri("Alice"@),
            dev_uri("Bob"@),
            dev_uri("Charlie"@),
            dev_uri("Dave"@),
            dev_uri("Eve"@),
            dev_uri("Ferdie"@),
            dev_uri("Alice//stash"@),
            dev_uri("Bob//stash"@),
            dev_uri("Charlie//stash"@),
            dev_uri("Dave//stash"@),
            dev_uri("Eve//stash"@),
            dev_uri("Ferdie//stash"@),
        ]);
        assert(texts(senate@) =~= seq![dev_uri("Bob"@), dev_uri("Charlie"@)]);
    }
    testnet_genesis(authorities, endowed, root, senate)
}

/// The identifier of the development preset.
pub const DEV_RUNTIME_PRESET: &'static str = "development";

/// The identifier of the local testnet preset.
pub const LOCAL_TESTNET_RUNTIME_PRESET: &'static str = "local_testnet";

/// The genesis of the preset named `id`, if there is one: the development
/// and the local testnet presets are known.
pub fn get_preset(id: &str) -> (r: Option<GenesisConfig>)
    ensures
        id@ == "development"@ ==> r is Some && is_development_genesis(r->Some_0),
        id@ == "local_testnet"@ ==> r is Some && is_local_genesis(r->Some_0),
        id@ != "development"@ && id@ != "local_testnet"@ ==> r is None,
{
    proof {
        reveal_strlit("development");
        reveal_strlit("local_testnet");
        assert("development"@.len() != "local_testnet"@.len());
    }
    let name = id.to_owned();
    if name == DEV_RUNTIME_PRESET.to_owned() {
        Some(development_config_genesis())
    } else if name == LOCAL_TESTNET_RUNTIME_PRESET.to_owned() {
        Some(local_config_genesis())
    } else {
        None
    }
}

/// The identifiers of the known presets, the development one first.
pub fn preset_names() -> (r: Vec<String>)
    ensures
        texts(r@) == seq!["development"@, "local_testnet"@],
{
    let r = vec![DEV_RUNTIME_PRESET.to_owned(), LOCAL_TESTNET_RUNTIME_PRESET.to_owned()];
    proof {
        assert(texts(r@) =~= seq!["development"@, "local_testnet"@]);
    }
    r
}

} // verus!
