//! Cluster specification validation and derivation tests.

use avalanche_ops::errors::ValidationError;
use avalanche_ops::key;
use avalanche_ops::Endpoints;
use avalanche_ops::{
    avalanchego, aws, coreth, ArtifactPresence, DefaultSpecOption, InstallArtifacts, Machine, Spec,
    DEFAULT_MACHINE_ANCHOR_NODES, DEFAULT_MACHINE_NON_ANCHOR_NODES,
};

fn present() -> ArtifactPresence {
    ArtifactPresence {
        avalanched_bin: true,
        avalanchego_bin: true,
        plugins_dir: true,
    }
}

fn known_network_spec(non_anchor_nodes: u32) -> Spec {
    let mut config = avalanchego::Config::default();
    config.network_id = 1;
    config.genesis = None;
    Spec {
        id: String::from("test-cluster"),
        aws_resources: Some(aws::Resources {
            region: String::from("us-west-2"),
            s3_bucket: String::from("bucket"),
            ..aws::Resources::default()
        }),
        machine: Machine {
            anchor_nodes: None,
            non_anchor_nodes,
            instance_types: None,
        },
        install_artifacts: InstallArtifacts {
            avalanched_bin: String::from("/tmp/avalanched"),
            avalanchego_bin: String::from("/tmp/avalanchego"),
            plugins_dir: None,
        },
        avalanchego_config: config,
        coreth_config: coreth::Config::default(),
        avalanchego_genesis_template: None,
        subnet_evm_genesis: None,
        generated_seed_private_key_with_locked_p_chain_balance: None,
        generated_seed_private_keys: None,
        current_nodes: None,
        endpoints: None,
    }
}

fn custom_network_spec(anchor_nodes: Option<u32>) -> Spec {
    let opt = custom_options(2);
    let mut spec = Spec::default_aws(opt);
    spec.machine.anchor_nodes = anchor_nodes;
    spec
}

fn base_options() -> DefaultSpecOption {
    DefaultSpecOption {
        log_level: String::from("info"),
        network_name: String::new(),
        keys_to_generate: 2,
        region: String::from("us-west-2"),
        db_backup_s3_region: String::new(),
        db_backup_s3_bucket: String::new(),
        db_backup_s3_key: String::new(),
        nlb_acm_certificate_arn: String::new(),
        install_artifacts_avalanched_bin: String::from("/tmp/avalanched"),
        install_artifacts_avalanche_bin: String::from("/tmp/avalanchego"),
        install_artifacts_plugins_dir: String::new(),
        avalanchego_log_level: String::from("INFO"),
        avalanchego_whitelisted_subnets: String::new(),
        avalanchego_http_tls_enabled: false,
        avalanchego_state_sync_ids: String::new(),
        avalanchego_state_sync_ips: String::new(),
        avalanchego_profile_continuous_enabled: false,
        avalanchego_profile_continuous_freq: String::new(),
        avalanchego_profile_continuous_max_files: String::new(),
        coreth_metrics_enabled: false,
        coreth_continuous_profiler_enabled: false,
        coreth_offline_pruning_enabled: false,
        enable_subnet_evm: false,
        disable_instance_system_logs: false,
        disable_instance_system_metrics: false,
        spec_file_path: String::new(),
    }
}

fn custom_options(keys: usize) -> DefaultSpecOption {
    let mut opt = base_options();
    opt.network_name = String::from("my-test-net");
    opt.keys_to_generate = keys;
    opt
}

#[test]
fn validation_non_anchor_boundaries() {
    let spec = known_network_spec(0);
    assert_eq!(
        spec.validate(&present()),
        Err(ValidationError::NonAnchorNodesTooFew)
    );
    let spec = known_network_spec(200);
    assert!(spec.validate(&present()).is_ok());
    let spec = known_network_spec(201);
    assert_eq!(
        spec.validate(&present()),
        Err(ValidationError::NonAnchorNodesTooMany)
    );
}

#[test]
fn validation_anchor_boundaries() {
    // a well-known network must not request anchor nodes
    let mut spec = known_network_spec(2);
    spec.machine.anchor_nodes = Some(1);
    assert_eq!(
        spec.validate(&present()),
        Err(ValidationError::AnchorNodesOnKnownNetwork)
    );

    // a custom network needs between one and ten anchor nodes
    let spec = custom_network_spec(Some(0));
    assert_eq!(
        spec.validate(&present()),
        Err(ValidationError::AnchorNodesZeroForCustomNetwork)
    );
    let spec = custom_network_spec(None);
    assert_eq!(
        spec.validate(&present()),
        Err(ValidationError::AnchorNodesZeroForCustomNetwork)
    );
    let spec = custom_network_spec(Some(11));
    assert_eq!(
        spec.validate(&present()),
        Err(ValidationError::AnchorNodesTooMany)
    );
    let spec = custom_network_spec(Some(10));
    assert!(spec.validate(&present()).is_ok());
}

#[test]
fn validation_id_and_resources() {
    let mut spec = known_network_spec(2);
    spec.id = String::new();
    assert_eq!(spec.validate(&present()), Err(ValidationError::IdEmpty));

    let mut spec = known_network_spec(2);
    spec.id = String::from("a-cluster-id-that-is-29-chars");
    assert_eq!(spec.id.len(), 29);
    assert_eq!(spec.validate(&present()), Err(ValidationError::IdTooLong));

    let mut spec = known_network_spec(2);
    if let Some(a) = spec.aws_resources.as_mut() {
        a.region = String::new();
    }
    assert_eq!(spec.validate(&present()), Err(ValidationError::RegionEmpty));

    let mut spec = known_network_spec(2);
    if let Some(a) = spec.aws_resources.as_mut() {
        a.db_backup_s3_region = Some(String::from("us-east-1"));
    }
    assert_eq!(
        spec.validate(&present()),
        Err(ValidationError::DbBackupBucketMissing)
    );

    let mut spec = known_network_spec(2);
    if let Some(a) = spec.aws_resources.as_mut() {
        a.db_backup_s3_bucket = Some(String::from("backups"));
    }
    assert_eq!(
        spec.validate(&present()),
        Err(ValidationError::DbBackupKeyMissing)
    );

    let mut spec = known_network_spec(2);
    if let Some(a) = spec.aws_resources.as_mut() {
        a.db_backup_s3_bucket = Some(String::from("backups"));
        a.db_backup_s3_key = Some(String::from("key"));
    }
    assert_eq!(
        spec.validate(&present()),
        Err(ValidationError::DbBackupRegionMissing)
    );
}

#[test]
fn validation_artifacts_and_genesis() {
    let spec = known_network_spec(2);
    let missing = ArtifactPresence {
        avalanched_bin: false,
        avalanchego_bin: true,
        plugins_dir: true,
    };
    assert_eq!(
        spec.validate(&missing),
        Err(ValidationError::AvalanchedBinMissing)
    );
    let missing = ArtifactPresence {
        avalanched_bin: true,
        avalanchego_bin: false,
        plugins_dir: true,
    };
    assert_eq!(
        spec.validate(&missing),
        Err(ValidationError::AvalanchegoBinMissing)
    );

    let mut spec = known_network_spec(2);
    spec.install_artifacts.plugins_dir = Some(String::from("/tmp/plugins"));
    let missing = ArtifactPresence {
        avalanched_bin: true,
        avalanchego_bin: true,
        plugins_dir: false,
    };
    assert_eq!(
        spec.validate(&missing),
        Err(ValidationError::PluginsDirMissing)
    );

    let mut spec = known_network_spec(2);
    spec.avalanchego_genesis_template = Spec::default_aws(custom_options(2))
        .avalanchego_genesis_template;
    assert_eq!(
        spec.validate(&present()),
        Err(ValidationError::GenesisOnKnownNetwork)
    );

    let mut spec = custom_network_spec(Some(2));
    spec.avalanchego_genesis_template = None;
    assert_eq!(
        spec.validate(&present()),
        Err(ValidationError::GenesisMissingForCustomNetwork)
    );
}

#[test]
fn derive_known_network() {
    let mut opt = base_options();
    opt.network_name = String::from("fuji");
    opt.keys_to_generate = 2;
    let spec = Spec::default_aws(opt);
    assert_eq!(spec.avalanchego_config.network_id, 5);
    assert!(spec.machine.anchor_nodes.is_none());
    assert_eq!(
        spec.machine.non_anchor_nodes,
        DEFAULT_MACHINE_NON_ANCHOR_NODES
    );
    assert!(spec.avalanchego_genesis_template.is_none());
    assert!(spec.avalanchego_config.genesis.is_none());
    assert!(spec
        .generated_seed_private_key_with_locked_p_chain_balance
        .is_some());
    assert_eq!(spec.generated_seed_private_keys.as_ref().unwrap().len(), 1);
    assert!(spec.id.starts_with("aops-fuji-"));
    assert!(spec.validate(&present()).is_ok());
}

#[test]
fn derive_custom_network() {
    let spec = Spec::default_aws(custom_options(2));
    assert_eq!(
        spec.avalanchego_config.network_id,
        avalanchego::DEFAULT_CUSTOM_NETWORK_ID
    );
    assert_eq!(
        spec.machine.anchor_nodes,
        Some(DEFAULT_MACHINE_ANCHOR_NODES)
    );
    assert_eq!(
        spec.machine.non_anchor_nodes,
        DEFAULT_MACHINE_NON_ANCHOR_NODES
    );
    assert!(spec.avalanchego_genesis_template.is_some());
    assert!(spec.id.starts_with("aops-custom-"));
    assert!(spec.validate(&present()).is_ok());
}

#[test]
fn derive_is_deterministic_in_shape() {
    // two derivations from identical options agree on everything the
    // expected table fixes: counts, key count, genesis presence
    for _ in 0..2 {
        let a = Spec::default_aws(custom_options(4));
        let b = Spec::default_aws(custom_options(4));
        assert_eq!(a.machine.anchor_nodes, b.machine.anchor_nodes);
        assert_eq!(a.machine.non_anchor_nodes, b.machine.non_anchor_nodes);
        assert_eq!(
            a.generated_seed_private_keys.as_ref().unwrap().len(),
            b.generated_seed_private_keys.as_ref().unwrap().len()
        );
        assert_eq!(
            a.avalanchego_genesis_template.is_some(),
            b.avalanchego_genesis_template.is_some()
        );
        let c = Spec::default_aws({
            let mut o = base_options();
            o.network_name = String::from("mainnet");
            o.keys_to_generate = 4;
            o
        });
        assert!(c.machine.anchor_nodes.is_none());
        assert!(c.avalanchego_genesis_template.is_none());
        assert_eq!(c.generated_seed_private_keys.as_ref().unwrap().len(), 3);
    }
}

#[test]
fn derive_three_keys_end_to_end() {
    let mut opt = custom_options(3);
    opt.enable_subnet_evm = true;
    let spec = Spec::default_aws(opt);

    // exactly three keys: one locked, two unlocked
    assert!(spec
        .generated_seed_private_key_with_locked_p_chain_balance
        .is_some());
    assert_eq!(spec.generated_seed_private_keys.as_ref().unwrap().len(), 2);

    // genesis template present, funding all three keys
    let genesis = spec.avalanchego_genesis_template.as_ref().unwrap();
    assert_eq!(genesis.allocations.len(), 3);
    assert_eq!(genesis.initial_staked_funds.len(), 1);

    // anchor node count at its default
    assert_eq!(spec.machine.anchor_nodes, Some(2));

    // every generated address is a subnet admin and pre-funded there
    let subnet = spec.subnet_evm_genesis.as_ref().unwrap();
    assert_eq!(subnet.alloc.as_ref().unwrap().len(), 3);
    let admins = subnet
        .config
        .as_ref()
        .unwrap()
        .contract_deployer_allow_list_config
        .as_ref()
        .unwrap()
        .allow_list_admins
        .as_ref()
        .unwrap();
    assert_eq!(admins.len(), 3);
    for (alloc, admin) in subnet.alloc.as_ref().unwrap().iter().zip(admins.iter()) {
        assert_eq!(format!("0x{}", alloc.address), *admin);
    }
}

#[test]
fn derive_overrides() {
    let mut opt = custom_options(2);
    opt.avalanchego_http_tls_enabled = true;
    opt.avalanchego_state_sync_ids = String::from("NodeID-a,NodeID-b");
    opt.avalanchego_profile_continuous_enabled = true;
    opt.avalanchego_profile_continuous_max_files = String::from("10");
    opt.avalanchego_whitelisted_subnets = String::from("subnet-1");
    opt.db_backup_s3_region = String::from("us-east-1");
    opt.db_backup_s3_bucket = String::from("backup-bucket");
    opt.db_backup_s3_key = String::from("backup-key");
    opt.nlb_acm_certificate_arn = String::from("arn:aws:acm:us-west-2:111:certificate/abc");
    opt.disable_instance_system_logs = true;
    opt.coreth_metrics_enabled = true;
    opt.coreth_continuous_profiler_enabled = true;
    opt.coreth_offline_pruning_enabled = true;
    opt.install_artifacts_plugins_dir = String::from("/tmp/plugins");
    let spec = Spec::default_aws(opt);

    let config = &spec.avalanchego_config;
    assert_eq!(config.http_tls_enabled, Some(true));
    assert_eq!(config.http_tls_key_file, config.staking_tls_key_file);
    assert_eq!(config.http_tls_cert_file, config.staking_tls_cert_file);
    assert_eq!(config.state_sync_ids.as_deref(), Some("NodeID-a,NodeID-b"));
    assert_eq!(config.state_sync_ips, None);
    assert_eq!(config.profile_continuous_enabled, Some(true));
    assert_eq!(config.profile_continuous_max_files, Some(10));
    assert_eq!(config.whitelisted_subnets.as_deref(), Some("subnet-1"));

    let aws_resources = spec.aws_resources.as_ref().unwrap();
    assert_eq!(aws_resources.region, "us-west-2");
    assert_eq!(aws_resources.s3_bucket.len(), 31);
    assert!(aws_resources.s3_bucket.starts_with("avalanche-ops-"));
    assert!(aws_resources.s3_bucket[14..20].chars().all(|c| c.is_ascii_digit()));
    assert_eq!(aws_resources.db_backup_s3_region.as_deref(), Some("us-east-1"));
    assert_eq!(aws_resources.db_backup_s3_bucket.as_deref(), Some("backup-bucket"));
    assert_eq!(aws_resources.db_backup_s3_key.as_deref(), Some("backup-key"));
    assert!(aws_resources.nlb_acm_certificate_arn.is_some());
    assert_eq!(aws_resources.instance_system_logs, Some(false));
    assert_eq!(aws_resources.instance_system_metrics, Some(true));

    assert_eq!(spec.install_artifacts.plugins_dir.as_deref(), Some("/tmp/plugins"));

    let coreth = &spec.coreth_config;
    assert_eq!(coreth.metrics_enabled, Some(true));
    assert_eq!(
        coreth.continuous_profiler_dir.as_deref(),
        Some("/var/log/avalanche-profile/coreth")
    );
    assert_eq!(
        coreth.continuous_profiler_frequency,
        Some(coreth::DEFAULT_PROFILE_FREQUENCY)
    );
    assert_eq!(
        coreth.continuous_profiler_max_files,
        Some(coreth::DEFAULT_PROFILE_MAX_FILES)
    );
    assert_eq!(coreth.offline_pruning_enabled, Some(true));
}

#[test]
fn derive_id_from_spec_file() {
    let mut opt = custom_options(2);
    opt.spec_file_path = String::from("/home/me/clusters/my-net.yaml");
    let spec = Spec::default_aws(opt);
    assert_eq!(spec.id, "my-net");
}

#[test]
fn endpoints_default_empty() {
    let e = Endpoints::default();
    assert!(e.http_rpc.is_none());
    assert!(e.http_rpc_x.is_none());
    assert!(e.http_rpc_p.is_none());
    assert!(e.http_rpc_c.is_none());
    assert!(e.metrics.is_none());
    assert!(e.health.is_none());
    assert!(e.liveness.is_none());
    assert!(e.metamask_rpc.is_none());
    assert!(e.websocket.is_none());
}

#[test]
fn test_key_material() {
    let keys = key::test_keys();
    assert_eq!(keys.len(), 1);
    assert_eq!(
        keys[0].private_key_hex,
        "56289e99c94b6912bfc12adc093c9b51124f0dc54ac7a766b2bc5ccf558d8027"
    );
    assert_eq!(
        keys[0].eth_address,
        "0x8db97C7cEcE249c2b98bDC0226Cc4C2A57BF52FC"
    );
    assert_eq!(
        key::strip_0x("0x8db97C7cEcE249c2b98bDC0226Cc4C2A57BF52FC"),
        "8db97C7cEcE249c2b98bDC0226Cc4C2A57BF52FC"
    );
    assert_eq!(key::strip_0x("plain"), "plain");

    let fresh = key::generate();
    assert_eq!(fresh.private_key_hex.len(), 64);
    assert!(fresh.private_key_hex.chars().all(|c| c.is_ascii_hexdigit()));
    assert_eq!(fresh.eth_address.len(), 42);
    assert!(fresh.eth_address.starts_with("0x"));
}
