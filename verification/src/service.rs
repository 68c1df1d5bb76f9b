//! Decisions of the worker service: which services to start in which
//! mode, where the data provider configuration comes from and how the
//! environment overrides it, whether this enclave is already registered on
//! the parentchain, and whether it is the primary validateer.
use vstd::prelude::*;
use vstd::string::StringSliceAdditionalSpecFns;

verus! {

/// The value of a hexadecimal digit, if `c` is one (either case).
pub open spec fn hex_value(c: u8) -> Option<u8> {
    if 48 <= c <= 57 {
        Some((c - 48) as u8)
    } else if 97 <= c <= 102 {
        Some((c - 87) as u8)
    } else if 65 <= c <= 70 {
        Some((c - 55) as u8)
    } else {
        None
    }
}

/// The bytes that hexadecimal text stands for: two digits per byte, high
/// digit first; none when the text has odd length or a non-digit.
pub open spec fn hex_decode_spec(s: Seq<u8>) -> Option<Seq<u8>>
    decreases s.len(),
{
    if s.len() == 0 {
        Some(Seq::empty())
    } else if s.len() == 1 {
        None
    } else {
        match (hex_value(s[0]), hex_value(s[1]), hex_decode_spec(s.subrange(2, s.len() as int))) {
            (Some(h), Some(l), Some(rest)) => Some(seq![(h * 16 + l) as u8] + rest),
            _ => None,
        }
    }
}

/// The lower-case hexadecimal digit of `v < 16`.
pub open spec fn hex_digit(v: int) -> char {
    if v < 10 { (48 + v) as char } else { (87 + v) as char }
}

/// Lower-case hexadecimal text of `b`, two digits per byte.
pub open spec fn hex_encode_spec(b: Seq<u8>) -> Seq<char>
    decreases b.len(),
{
    if b.len() == 0 {
        Seq::empty()
    } else {
        seq![hex_digit(b[0] as int / 16), hex_digit(b[0] as int % 16)] + hex_encode_spec(b.drop_first())
    }
}

/// `hex::decode`: the bytes of hexadecimal text.
#[verifier::external_body]
fn hex_decode(data: &[u8]) -> (r: Option<Vec<u8>>)
    ensures
        r is Some <==> hex_decode_spec(data@) is Some,
        r matches Some(v) ==> v@ == hex_decode_spec(data@).unwrap(),
{
    hex::decode(data).ok()
}

/// `hex::decode_to_slice` into 32 bytes: succeeds when the text is exactly
/// 32 bytes of hexadecimal.
#[verifier::external_body]
fn hex_decode_32(data: &[u8]) -> (r: Option<[u8; 32]>)
    ensures
        r is Some <==> (hex_decode_spec(data@) is Some && hex_decode_spec(data@).unwrap().len() == 32),
        r matches Some(v) ==> v@ == hex_decode_spec(data@).unwrap(),
{
    let mut out = [0u8; 32];
    match hex::decode_to_slice(data, &mut out) {
        Ok(()) => Some(out),
        Err(_) => None,
    }
}

/// `hex::encode`: lower-case hexadecimal text of `data`.
#[verifier::external_body]
fn hex_encode(data: &[u8]) -> (s: String)
    ensures
        s@ == hex_encode_spec(data@),
{
    hex::encode(data)
}

/// `str == str`.
#[verifier::external_body]
fn str_equal(a: &str, b: &str) -> (r: bool)
    ensures
        r == (a@ == b@),
{
    a == b
}

/// The modes a worker runs in.
#[derive(Clone, Copy, Debug, PartialEq, Eq, Structural)]
pub enum WorkerMode {
    OffChainWorker,
    Sidechain,
    Teeracle,
}

/// The services that a worker starts, besides the common ones.
#[derive(Clone, Copy, Debug, PartialEq, Eq, Structural)]
pub struct ServicePlan {
    /// The trusted RPC server for direct invocations.
    pub direct_rpc_server: bool,
    /// The untrusted RPC server for sidechain block import.
    pub untrusted_rpc_server: bool,
    /// Syncing the parentchain (light client and block import).
    pub sync_parentchain: bool,
    /// Sidechain block production.
    pub sidechain_block_production: bool,
    /// Polling until a worker for the shard is registered.
    pub poll_worker_for_shard: bool,
    /// Periodic re-registration and market updates of the teeracle.
    pub teeracle_updates: bool,
}

/// The services of a worker in `mode`: a sidechain worker runs everything
/// but the teeracle; an off-chain worker the trusted RPC server and
/// parentchain sync; a teeracle only its updates.
pub fn service_plan(mode: WorkerMode) -> (p: ServicePlan)
    ensures
        p.direct_rpc_server == (mode == WorkerMode::Sidechain || mode == WorkerMode::OffChainWorker),
        p.untrusted_rpc_server == (mode == WorkerMode::Sidechain),
        p.sync_parentchain == (mode != WorkerMode::Teeracle),
        p.sidechain_block_production == (mode == WorkerMode::Sidechain),
        p.poll_worker_for_shard == (mode == WorkerMode::Sidechain),
        p.teeracle_updates == (mode == WorkerMode::Teeracle),
{
    ServicePlan {
        direct_rpc_server: mode == WorkerMode::Sidechain || mode == WorkerMode::OffChainWorker,
        untrusted_rpc_server: mode == WorkerMode::Sidechain,
        sync_parentchain: mode != WorkerMode::Teeracle,
        sidechain_block_production: mode == WorkerMode::Sidechain,
        poll_worker_for_shard: mode == WorkerMode::Sidechain,
        teeracle_updates: mode == WorkerMode::Teeracle,
    }
}

/// Where the data provider configuration is read from.
#[derive(Debug, PartialEq, Eq)]
pub enum ConfigSource {
    /// The built-in configuration of a running mode.
    BuiltIn(String),
    /// A JSON file at this path.
    File(String),
}

/// The running modes with a built-in configuration.
pub open spec fn is_built_in_mode(mode: Seq<char>) -> bool {
    mode == "dev"@ || mode == "staging"@ || mode == "prod"@ || mode == "mock"@
}

/// Where the configuration of `running_mode` comes from: the built-in one
/// for `dev`, `staging`, `prod` and `mock`; otherwise the running mode is
/// the path of a configuration file.
pub fn config_source(running_mode: &str) -> (s: ConfigSource)
    ensures
        is_built_in_mode(running_mode@) ==> (s matches ConfigSource::BuiltIn(m) && m@ == running_mode@),
        !is_built_in_mode(running_mode@) ==> (s matches ConfigSource::File(p) && p@ == running_mode@),
{
    let built_in = str_equal(running_mode, "dev") || str_equal(running_mode, "staging")
        || str_equal(running_mode, "prod") || str_equal(running_mode, "mock");
    if built_in {
        ConfigSource::BuiltIn(running_mode.to_owned())
    } else {
        ConfigSource::File(running_mode.to_owned())
    }
}

/// Endpoints and credentials of the data providers.
#[derive(Clone, Debug)]
pub struct DataProviderConfig {
    pub twitter_official_url: String,
    pub twitter_litentry_url: String,
    pub twitter_auth_token_v2: String,
    pub discord_official_url: String,
    pub discord_litentry_url: String,
    pub discord_auth_token: String,
    pub achainable_url: String,
    pub achainable_auth_key: String,
    pub credential_endpoint: String,
}

/// Values set in the environment for the configuration, by variable:
/// `TWITTER_OFFICIAL_URL`, `TWITTER_LITENTRY_URL`, `TWITTER_AUTH_TOKEN_V2`,
/// `DISCORD_OFFICIAL_URL`, `DISCORD_LITENTRY_URL`, `DISCORD_AUTH_TOKEN`,
/// `ACHAINABLE_URL`, `ACHAINABLE_AUTH_KEY`, `CREDENTIAL_ENDPOINT`.
#[derive(Clone, Debug)]
pub struct ConfigOverrides {
    pub twitter_official_url: Option<String>,
    pub twitter_litentry_url: Option<String>,
    pub twitter_auth_token_v2: Option<String>,
    pub discord_official_url: Option<String>,
    pub discord_litentry_url: Option<String>,
    pub discord_auth_token: Option<String>,
    pub achainable_url: Option<String>,
    pub achainable_auth_key: Option<String>,
    pub credential_endpoint: Option<String>,
}

/// `v` if it is set, else `current`.
pub open spec fn overridden(current: String, v: Option<String>) -> String {
    match v {
        Some(x) => x,
        None => current,
    }
}

fn set_if(field: &mut String, v: Option<String>)
    ensures
        *final(field) == overridden(*old(field), v),
{
    if let Some(x) = v {
        *field = x;
    }
}

/// The configuration with every value set in the environment replacing
/// the configured one; the others stay.
pub fn apply_overrides(config: DataProviderConfig, env: ConfigOverrides) -> (c: DataProviderConfig)
    ensures
        c.twitter_official_url == overridden(config.twitter_official_url, env.twitter_official_url),
        c.twitter_litentry_url == overridden(config.twitter_litentry_url, env.twitter_litentry_url),
        c.twitter_auth_token_v2 == overridden(config.twitter_auth_token_v2, env.twitter_auth_token_v2),
        c.discord_official_url == overridden(config.discord_official_url, env.discord_official_url),
        c.discord_litentry_url == overridden(config.discord_litentry_url, env.discord_litentry_url),
        c.discord_auth_token == overridden(config.discord_auth_token, env.discord_auth_token),
        c.achainable_url == overridden(config.achainable_url, env.achainable_url),
        c.achainable_auth_key == overridden(config.achainable_auth_key, env.achainable_auth_key),
        c.credential_endpoint == overridden(config.credential_endpoint, env.credential_endpoint),
{
    let mut c = config;
    set_if(&mut c.twitter_official_url, env.twitter_official_url);
    set_if(&mut c.twitter_litentry_url, env.twitter_litentry_url);
    set_if(&mut c.twitter_auth_token_v2, env.twitter_auth_token_v2);
    set_if(&mut c.discord_official_url, env.discord_official_url);
    set_if(&mut c.discord_litentry_url, env.discord_litentry_url);
    set_if(&mut c.discord_auth_token, env.discord_auth_token);
    set_if(&mut c.achainable_url, env.achainable_url);
    set_if(&mut c.achainable_auth_key, env.achainable_auth_key);
    set_if(&mut c.credential_endpoint, env.credential_endpoint);
    c
}

/// The hexadecimal text of a key of the enclave registry, without its
/// `0x` prefix when it has one.
pub open spec fn registry_key_digits(key: Seq<u8>) -> Seq<u8> {
    if key.len() >= 2 && key[0] == 48 && key[1] == 120 {
        key.subrange(2, key.len() as int)
    } else {
        key
    }
}

/// The storage key that a key of the enclave registry (hexadecimal text,
/// with or without `0x`) stands for; none when it is not hexadecimal.
pub fn decode_registry_key(key: &[u8]) -> (r: Option<Vec<u8>>)
    ensures
        r is Some <==> hex_decode_spec(registry_key_digits(key@)) is Some,
        r matches Some(v) ==> v@ == hex_decode_spec(registry_key_digits(key@)).unwrap(),
{
    if key.len() >= 2 && key[0] == 48u8 && key[1] == 120u8 {
        let digits = vstd::slice::slice_subrange(key, 2, key.len());
        hex_decode(digits)
    } else {
        hex_decode(key)
    }
}

/// Whether a registered enclave is this one: the same measurement and the
/// same URL.
pub fn is_our_enclave(registered_mrenclave: &[u8], registered_url: &[u8], mrenclave: &[u8], url: &[u8]) -> (r: bool)
    ensures
        r == (registered_mrenclave@ == mrenclave@ && registered_url@ == url@),
{
    crate::identity::bytes_eq(registered_mrenclave, mrenclave) && crate::identity::bytes_eq(registered_url, url)
}

/// Whether the enclave still has to register: none of the registered
/// enclaves read from the registry (measurement and URL each) is this one.
pub fn registration_needed(registered: &Vec<(Vec<u8>, Vec<u8>)>, mrenclave: &[u8], url: &[u8]) -> (r: bool)
    ensures
        r == !(exists|i: int| 0 <= i < registered@.len()
            && (#[trigger] registered@[i]).0@ == mrenclave@ && registered@[i].1@ == url@),
{
    let mut i: usize = 0;
    while i < registered.len()
        invariant
            i <= registered@.len(),
            forall|k: int| 0 <= k < i ==> !((#[trigger] registered@[k]).0@ == mrenclave@ && registered@[k].1@ == url@),
        decreases registered@.len() - i,
    {
        if is_our_enclave(registered[i].0.as_slice(), registered[i].1.as_slice(), mrenclave, url) {
            return false;
        }
        i = i + 1;
    }
    true
}

/// Whether this enclave is the first validateer: no enclave was registered
/// as of the block before the one that registered it.
pub fn is_primary_validateer(enclave_count_of_previous_block: u64) -> (r: bool)
    ensures
        r == (enclave_count_of_previous_block == 0),
{
    enclave_count_of_previous_block == 0
}

/// The registration extrinsic as `0x`-prefixed lower-case hexadecimal text.
pub fn extrinsic_hex(xt: &[u8]) -> (s: String)
    ensures
        s@ == "0x"@ + hex_encode_spec(xt@),
{
    let mut s = "0x".to_owned();
    let h = hex_encode(xt);
    s.append(h.as_str());
    s
}

/// A shard given as 64 hexadecimal digits (no `0x`).
pub fn parse_shard(value: &str) -> (r: Option<[u8; 32]>)
    ensures
        r is Some <==> (hex_decode_spec(value.spec_bytes()) is Some && hex_decode_spec(value.spec_bytes()).unwrap().len() == 32),
        r matches Some(v) ==> v@ == hex_decode_spec(value.spec_bytes()).unwrap(),
{
    hex_decode_32(value.as_bytes())
}

/// Why a shard cannot be migrated.
#[derive(Debug, PartialEq, Eq, Structural)]
pub enum MigrateShardError {
    /// The old and the new shard are the same.
    SameShard,
}

/// Whether a shard can be migrated to another: only to a different one.
pub fn check_migrate_shard(old_shard: &[u8; 32], new_shard: &[u8; 32]) -> (r: Result<(), MigrateShardError>)
    ensures
        r is Ok <==> old_shard@ != new_shard@,
        r matches Err(e) ==> e == MigrateShardError::SameShard,
{
    if crate::identity::bytes_eq(old_shard.as_slice(), new_shard.as_slice()) {
        Err(MigrateShardError::SameShard)
    } else {
        Ok(())
    }
}

} // verus!
