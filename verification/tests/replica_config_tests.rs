use dfx::replica_config::{ConfigError, ReplicaConfig, SchedulerConfig};

#[test]
fn replica_keeps_its_state_under_the_state_root() {
    let config = ReplicaConfig::new("/state");
    assert_eq!(config.http_handler.port, None);
    assert_eq!(config.http_handler.write_port_to, None);
    assert_eq!(config.scheduler, SchedulerConfig { exec_gas: None, round_gas_max: None });
    assert_eq!(config.state_manager.state_root, "/state/replicated_state");
    assert_eq!(config.crypto.crypto_root, "/state/crypto_store");
    assert_eq!(config.artifact_pool.consensus_pool_backend, "rocksdb");
    assert_eq!(config.artifact_pool.consensus_pool_path, "/state/consensus_pool");
}

#[test]
fn fixed_port_replaces_a_reported_port() {
    let mut config = ReplicaConfig::new("/state");
    config.with_random_port("/run/port");
    config.with_port(8000);
    assert_eq!(config.http_handler.port, Some(8000));
    assert_eq!(config.http_handler.write_port_to, None);
    config.with_port(1).with_port(2);
    assert_eq!(config.http_handler.port, Some(2));
    let untouched = ReplicaConfig::new("/state");
    assert_eq!(config.state_manager, untouched.state_manager);
    assert_eq!(config.crypto, untouched.crypto);
    assert_eq!(config.artifact_pool, untouched.artifact_pool);
    assert_eq!(config.scheduler, untouched.scheduler);
}

#[test]
fn reported_port_replaces_a_fixed_port() {
    let mut config = ReplicaConfig::new("/state");
    config.with_port(8000);
    let copy = config.with_random_port("/run/port");
    assert_eq!(config.http_handler.port, None);
    assert_eq!(config.http_handler.write_port_to, Some("/run/port".to_string()));
    assert_eq!(copy, config);
}

#[test]
fn round_gas_limit_must_exceed_message_gas_limit() {
    let refused = Err(ConfigError::InvalidData(
        "Round gas limit must exceed message gas limit.".to_string(),
    ));
    let ok = SchedulerConfig { exec_gas: Some(1), round_gas_max: Some(2) };
    assert_eq!(ok.validate(), Ok(ok));
    let unset_message = SchedulerConfig { exec_gas: None, round_gas_max: Some(0) };
    assert_eq!(unset_message.validate(), Ok(unset_message));
    assert_eq!(SchedulerConfig { exec_gas: Some(2), round_gas_max: Some(2) }.validate(), refused);
    assert_eq!(SchedulerConfig { exec_gas: Some(3), round_gas_max: Some(2) }.validate(), refused);
    assert_eq!(SchedulerConfig { exec_gas: Some(0), round_gas_max: None }.validate(), refused);
    assert_eq!(SchedulerConfig { exec_gas: None, round_gas_max: None }.validate(), refused);
    assert_eq!(
        SchedulerConfig { exec_gas: Some(u64::MAX), round_gas_max: Some(u64::MAX) }.validate(),
        refused
    );
}

#[test]
fn default_replica_configuration_is_empty_and_invalid() {
    let config = ReplicaConfig::default();
    assert_eq!(config.http_handler.port, None);
    assert_eq!(config.http_handler.write_port_to, None);
    assert_eq!(config.state_manager.state_root, "");
    assert_eq!(config.crypto.crypto_root, "");
    assert_eq!(config.artifact_pool.consensus_pool_backend, "");
    assert_eq!(config.artifact_pool.consensus_pool_path, "");
    assert_eq!(config.scheduler, SchedulerConfig::default());
    assert!(config.scheduler.validate().is_err());
}
