use noir_compute::config::CommandLineOptions;
use noir_compute::config::ConfigError;
use noir_compute::config::HostConfig;
use noir_compute::config::LocalConfig;
use noir_compute::config::RemoteConfig;
use noir_compute::config::RuntimeConfig;
use noir_compute::config::SSHConfig;
use noir_compute::config::ssh_default_port;
use noir_compute::graph::BlockStructure;
use noir_compute::graph::Connection;
use noir_compute::graph::JobGraphGenerator;
use noir_compute::graph::OperatorKind;
use noir_compute::graph::OperatorReceiver;
use noir_compute::graph::OperatorStructure;
use noir_compute::graph::connection_edges;
use noir_compute::graph::resolve_receiver;
use noir_compute::routing::ConnectionStrategy;
use noir_compute::routing::group_by_replica;
use noir_compute::routing::key_hash;

fn host(password: Option<&str>, key_file: Option<&str>) -> HostConfig {
    HostConfig {
        address: "host1".to_string(),
        base_port: 9500,
        num_cores: 16,
        ssh: SSHConfig {
            ssh_port: ssh_default_port(),
            username: None,
            password: password.map(|s| s.to_string()),
            key_file: key_file.map(|s| s.to_string()),
            key_passphrase: None,
        },
        perf_path: None,
    }
}

#[test]
fn local_config_has_host_zero() {
    let config = RuntimeConfig::local(4);
    assert_eq!(config, RuntimeConfig::Local(LocalConfig { num_cores: 4 }));
    assert_eq!(config.host_id(), Some(0));
    assert!(!config.spawn_remote_workers());
}

#[test]
fn remote_config_keeps_its_hosts() {
    let remote = RemoteConfig {
        host_id: None,
        hosts: vec![host(None, None), host(Some("SECRET-REDACTED"), None)],
        tracing_dir: None,
        cleanup_executable: false,
    };
    let config = RuntimeConfig::remote(remote, Some(1)).expect("the configuration is well formed");
    assert_eq!(config.host_id(), Some(1));
    assert!(!config.spawn_remote_workers());
    match &config {
        RuntimeConfig::Remote(rc) => assert_eq!(rc.hosts.len(), 2),
        RuntimeConfig::Local(_) => panic!("a remote configuration was built"),
    }
}

#[test]
fn remote_config_spawns_only_without_host_id() {
    let remote = RemoteConfig {
        host_id: None,
        hosts: vec![host(None, None)],
        tracing_dir: None,
        cleanup_executable: false,
    };
    let config = RuntimeConfig::remote(remote, None).unwrap();
    assert_eq!(config.host_id(), None);
    assert!(config.spawn_remote_workers());
}

#[test]
fn remote_config_rejects_password_with_key_file() {
    let remote = RemoteConfig {
        host_id: None,
        hosts: vec![host(None, None), host(Some("SECRET-REDACTED"), Some("/home/user/.ssh/id"))],
        tracing_dir: None,
        cleanup_executable: false,
    };
    match RuntimeConfig::remote(remote, None) {
        Err(ConfigError::Invalid(_)) => {},
        _ => panic!("a host with both a password and a key file must be rejected"),
    }
}

#[test]
fn command_line_options_validate() {
    let both = CommandLineOptions {
        remote: Some("config.toml".to_string()),
        local: Some(4),
        args: vec![],
    };
    assert!(!both.validate());
    let neither = CommandLineOptions { remote: None, local: None, args: vec![] };
    assert!(!neither.validate());
    let zero_cores = CommandLineOptions { remote: None, local: Some(0), args: vec![] };
    assert!(!zero_cores.validate());
    let local = CommandLineOptions { remote: None, local: Some(8), args: vec![] };
    assert!(local.validate());
    let remote = CommandLineOptions {
        remote: Some("config.toml".to_string()),
        local: None,
        args: vec![],
    };
    assert!(remote.validate());
}

#[test]
fn redacted_ssh_config_hides_the_password() {
    let ssh = SSHConfig {
        ssh_port: 2222,
        username: Some("user".to_string()),
        password: Some("SECRET-REDACTED".to_string()),
        key_file: None,
        key_passphrase: None,
    };
    let redacted = ssh.redacted();
    assert_eq!(redacted.ssh_port, 2222);
    assert_eq!(redacted.username, Some("user".to_string()));
    assert_eq!(redacted.password, Some("REDACTED".to_string()));
    assert_eq!(redacted.key_passphrase, None);
}

#[test]
fn default_ssh_config_uses_the_standard_port() {
    let ssh = SSHConfig::default();
    assert_eq!(ssh.ssh_port, 22);
    assert_eq!(ssh.username, None);
    assert_eq!(ssh.password, None);
}

#[test]
fn key_hash_is_stable() {
    // the fold over no bytes is the basis; one byte mixes exactly once
    assert_eq!(key_hash(&vec![]), 0xcbf29ce484222325);
    assert_eq!(key_hash(&vec![0x61]), 0xaf63dc4c8601ec8c);
}

#[test]
fn group_by_sends_equal_keys_to_one_replica() {
    let key = b"key".to_vec();
    let first = group_by_replica(&key, 7);
    let second = group_by_replica(&key, 7);
    assert_eq!(first, second);
    assert_eq!(first, 4);
    assert!(group_by_replica(&b"a".to_vec(), 4) < 4);
}

fn operator(
    kind: OperatorKind,
    receivers: Vec<OperatorReceiver>,
    connections: Vec<Connection>,
) -> OperatorStructure {
    OperatorStructure {
        title: "op".to_string(),
        subtitle: String::new(),
        kind,
        out_type: "u32".to_string(),
        receivers,
        connections,
    }
}

#[test]
fn generator_orders_blocks_and_overwrites_duplicates() {
    let mut generator = JobGraphGenerator::new();
    generator.add_block(2, BlockStructure { operators: vec![] });
    generator.add_block(
        0,
        BlockStructure { operators: vec![operator(OperatorKind::Source, vec![], vec![])] },
    );
    // registering block 2 again replaces its structure
    generator.add_block(
        2,
        BlockStructure { operators: vec![operator(OperatorKind::Sink, vec![], vec![])] },
    );
    let blocks = generator.finalize();
    assert_eq!(blocks.len(), 2);
    assert_eq!(blocks[0].0, 0);
    assert_eq!(blocks[1].0, 2);
    assert_eq!(blocks[1].1.operators.len(), 1);
    assert!(matches!(blocks[1].1.operators[0].kind, OperatorKind::Sink));
}

#[test]
fn edges_enter_the_declared_receiver() {
    let source = BlockStructure {
        operators: vec![operator(
            OperatorKind::Source,
            vec![],
            vec![Connection {
                to_block_id: 1,
                data_type: "u32".to_string(),
                strategy: ConnectionStrategy::GroupBy,
            }],
        )],
    };
    let sink = BlockStructure {
        operators: vec![
            operator(
                OperatorKind::Operator,
                vec![OperatorReceiver { previous_block_id: 0, data_type: "u32".to_string() }],
                vec![],
            ),
            operator(OperatorKind::Sink, vec![], vec![]),
        ],
    };
    let mut generator = JobGraphGenerator::new();
    generator.add_block(0, source);
    generator.add_block(1, sink);
    let blocks = generator.finalize();

    let resolved = resolve_receiver(&blocks, 0, 1).expect("block 1 receives from block 0");
    assert_eq!(resolved.0, 0);
    assert_eq!(resolved.1, "u32".to_string());
    assert_eq!(resolve_receiver(&blocks, 1, 0), None);

    let edges = connection_edges(&blocks);
    assert_eq!(edges.len(), 1);
    assert_eq!(edges[0].from_block, 0);
    assert_eq!(edges[0].from_index, 0);
    assert_eq!(edges[0].to_block, 1);
    assert_eq!(edges[0].to_index, 0);
    assert!(matches!(edges[0].strategy, ConnectionStrategy::GroupBy));
}
