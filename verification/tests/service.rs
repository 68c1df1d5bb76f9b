use tee_worker::service::{
    apply_overrides, check_migrate_shard, config_source, decode_registry_key, extrinsic_hex,
    is_our_enclave, is_primary_validateer, parse_shard, registration_needed, service_plan, ConfigOverrides, ConfigSource,
    DataProviderConfig, MigrateShardError, WorkerMode,
};

#[test]
fn sidechain_workers_run_everything_but_the_teeracle() {
    let p = service_plan(WorkerMode::Sidechain);
    assert!(p.direct_rpc_server && p.untrusted_rpc_server && p.sync_parentchain);
    assert!(p.sidechain_block_production && p.poll_worker_for_shard && !p.teeracle_updates);
}

#[test]
fn offchain_workers_and_teeracles() {
    let o = service_plan(WorkerMode::OffChainWorker);
    assert!(o.direct_rpc_server && o.sync_parentchain);
    assert!(!o.untrusted_rpc_server && !o.sidechain_block_production && !o.poll_worker_for_shard);
    let t = service_plan(WorkerMode::Teeracle);
    assert!(!t.direct_rpc_server && !t.sync_parentchain && t.teeracle_updates);
}

#[test]
fn built_in_running_modes_and_files() {
    for m in ["dev", "staging", "prod", "mock"] {
        assert_eq!(config_source(m), ConfigSource::BuiltIn(m.to_string()));
    }
    assert_eq!(config_source("/etc/worker.json"), ConfigSource::File("/etc/worker.json".to_string()));
    assert_eq!(config_source("Dev"), ConfigSource::File("Dev".to_string()));
}

fn config() -> DataProviderConfig {
    DataProviderConfig {
        twitter_official_url: "t1".into(),
        twitter_litentry_url: "t2".into(),
        twitter_auth_token_v2: "t3".into(),
        discord_official_url: "d1".into(),
        discord_litentry_url: "d2".into(),
        discord_auth_token: "d3".into(),
        achainable_url: "a1".into(),
        achainable_auth_key: "a2".into(),
        credential_endpoint: "c".into(),
    }
}

#[test]
fn environment_values_replace_only_their_own_setting() {
    let env = ConfigOverrides {
        twitter_official_url: None,
        twitter_litentry_url: None,
        twitter_auth_token_v2: Some("secret".into()),
        discord_official_url: None,
        discord_litentry_url: None,
        discord_auth_token: None,
        achainable_url: Some("https://a".into()),
        achainable_auth_key: None,
        credential_endpoint: None,
    };
    let c = apply_overrides(config(), env);
    assert_eq!(c.twitter_auth_token_v2, "secret");
    assert_eq!(c.achainable_url, "https://a");
    assert_eq!(c.twitter_official_url, "t1");
    assert_eq!(c.discord_auth_token, "d3");
    assert_eq!(c.credential_endpoint, "c");
}

#[test]
fn registry_keys_decode_with_or_without_prefix() {
    assert_eq!(decode_registry_key(b"0x0aFf"), Some(vec![0x0a, 0xff]));
    assert_eq!(decode_registry_key(b"0aff"), Some(vec![0x0a, 0xff]));
    assert_eq!(decode_registry_key(b"0x0af"), None);
    assert_eq!(decode_registry_key(b"zz"), None);
    assert_eq!(decode_registry_key(b""), Some(Vec::new()));
}

#[test]
fn our_enclave_has_our_measurement_and_url() {
    assert!(is_our_enclave(&[1u8; 32], b"wss://w", &[1u8; 32], b"wss://w"));
    assert!(!is_our_enclave(&[1u8; 32], b"wss://x", &[1u8; 32], b"wss://w"));
    assert!(!is_our_enclave(&[2u8; 32], b"wss://w", &[1u8; 32], b"wss://w"));
}

#[test]
fn the_first_registered_enclave_is_primary() {
    assert!(is_primary_validateer(0));
    assert!(!is_primary_validateer(3));
}

#[test]
fn extrinsics_are_shown_as_prefixed_hex() {
    assert_eq!(extrinsic_hex(&[0x01, 0xab, 0x10]), "0x01ab10");
    assert_eq!(extrinsic_hex(&[]), "0x");
}

#[test]
fn shards_are_64_hex_digits() {
    let text = "05".repeat(32);
    assert_eq!(parse_shard(&text), Some([5u8; 32]));
    assert_eq!(parse_shard("0505"), None);
    assert_eq!(parse_shard(&format!("0x{}", "05".repeat(31))), None);
}

#[test]
fn a_shard_cannot_migrate_to_itself() {
    assert_eq!(check_migrate_shard(&[1u8; 32], &[1u8; 32]), Err(MigrateShardError::SameShard));
    assert_eq!(check_migrate_shard(&[1u8; 32], &[2u8; 32]), Ok(()));
}

#[test]
fn an_enclave_registers_unless_the_registry_holds_it() {
    let ours = (vec![1u8; 32], b"wss://w".to_vec());
    let other = (vec![1u8; 32], b"wss://x".to_vec());
    assert!(registration_needed(&Vec::new(), &[1u8; 32], b"wss://w"));
    assert!(registration_needed(&vec![other.clone()], &[1u8; 32], b"wss://w"));
    assert!(!registration_needed(&vec![other, ours], &[1u8; 32], b"wss://w"));
}
