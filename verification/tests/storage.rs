//! Storage namespace and node identity codec tests.

use avalanche_ops::errors::{DecodeError, ParseError};
use avalanche_ops::node::{most_advanced_phase, next_phase, Phase};
use avalanche_ops::StackName;
use avalanche_ops::node::{Kind, Node};
use avalanche_ops::StorageNamespace;

fn random_string(n: usize) -> String {
    (0..n)
        .map(|_| {
            let b = rand::random::<u8>() % 36;
            if b < 26 {
                (b'a' + b) as char
            } else {
                (b'0' + b - 26) as char
            }
        })
        .collect()
}

#[test]
fn test_storage_path() {
    let id = random_string(10);
    let instance_id = random_string(5);
    let node_id = "NodeID-7Xhw2mDxuDS44j42TCB6U5579esbSt3Lg";
    let node_ip = "1.2.3.4";

    let node = Node::new(Kind::NonAnchor, &instance_id, node_id, node_ip, "http", 9650);
    let p = StorageNamespace::DiscoverReadyNonAnchorNode(
        id,
        Node {
            kind: String::from("non-anchor"),
            machine_id: instance_id.clone(),
            node_id: node_id.to_string(),
            public_ip: node_ip.to_string(),
            http_endpoint: format!("http://{}:9650", node_ip),
        },
    );
    let storage_path = p.encode();
    println!("KeyPath: {}", storage_path);

    let node_parsed = StorageNamespace::parse_node_from_path(&storage_path).unwrap();
    assert_eq!(node, node_parsed);
}

#[test]
fn path_inverse_concrete() {
    let node = Node {
        kind: String::from("non-anchor"),
        machine_id: String::from("i-1"),
        node_id: String::from("NodeID-7Xhw2mDxuDS44j42TCB6U5579esbSt3Lg"),
        public_ip: String::from("1.2.3.4"),
        http_endpoint: String::from("http://1.2.3.4:9650"),
    };
    let p = StorageNamespace::DiscoverReadyNonAnchorNode(String::from("abc123"), node.clone());
    let path = p.encode();
    assert!(path.starts_with("abc123/discover/ready-non-anchor-nodes/i-1_"));
    assert!(path.ends_with(".yaml"));
    let parsed = StorageNamespace::parse_node_from_path(&path).unwrap();
    assert_eq!(parsed, node);
}

#[test]
fn token_round_trip() {
    let node = Node::new(
        Kind::Anchor,
        "i-0123456789abcdef0",
        "NodeID-7Xhw2mDxuDS44j42TCB6U5579esbSt3Lg",
        "10.0.0.7",
        "https",
        443,
    );
    assert_eq!(node.kind, "anchor");
    assert_eq!(node.http_endpoint, "https://10.0.0.7:443");
    let token = node.compress_base58().unwrap();
    let back = Node::decompress_base58(token).unwrap();
    assert_eq!(back, node);
}

#[test]
fn token_round_trip_unicode_fields() {
    let node = Node {
        kind: String::from("non-anchor"),
        machine_id: String::from("i-9"),
        node_id: String::from("NodeID-äöü-Ω-🦙"),
        public_ip: String::from("1.2.3.4"),
        http_endpoint: String::from("http://1.2.3.4:9650"),
    };
    let token = node.compress_base58().unwrap();
    let back = Node::decompress_base58(token).unwrap();
    assert_eq!(back, node);
}

#[test]
fn decode_rejects_bad_alphabet() {
    assert_eq!(
        Node::decompress_base58(String::from("0O")),
        Err(DecodeError::Base58)
    );
    // odd length
    assert_eq!(
        Node::decompress_base58(String::from("1")),
        Err(DecodeError::Base58)
    );
    // a pair above 255
    assert_eq!(
        Node::decompress_base58(String::from("zz")),
        Err(DecodeError::Base58)
    );
}

#[test]
fn decode_rejects_bad_compression() {
    // the pairs decode to [0, 65]: a zero run count
    assert_eq!(
        Node::decompress_base58(String::from("1128")),
        Err(DecodeError::Decompress)
    );
}

#[test]
fn decode_rejects_bad_layout() {
    // the pairs decode to [1, 65]: one byte, too short for any field
    assert_eq!(
        Node::decompress_base58(String::from("1228")),
        Err(DecodeError::Layout)
    );
}

#[test]
fn parse_node_path_errors() {
    assert_eq!(
        StorageNamespace::parse_node_from_path("c/discover/x/"),
        Err(ParseError::MissingFileName)
    );
    assert_eq!(
        StorageNamespace::parse_node_from_path("c/discover/x/nounderscore.yaml"),
        Err(ParseError::SeparatorCount)
    );
    assert_eq!(
        StorageNamespace::parse_node_from_path("c/discover/x/a_b_c.yaml"),
        Err(ParseError::SeparatorCount)
    );
    assert_eq!(
        StorageNamespace::parse_node_from_path("c/discover/x/a_b.yaml"),
        Err(ParseError::Token(DecodeError::Base58))
    );
}

#[test]
fn storage_paths_per_purpose() {
    let id = || String::from("abc123");
    assert_eq!(
        StorageNamespace::ConfigFile(id()).encode(),
        "abc123/avalanche-ops.config.yaml"
    );
    assert_eq!(
        StorageNamespace::DevMachineConfigFile(id()).encode(),
        "abc123/dev-machine.config.yaml"
    );
    assert_eq!(
        StorageNamespace::Ec2AccessKeyCompressedEncrypted(id()).encode(),
        "abc123/ec2-access-key.zstd.seal_aes_256.encrypted"
    );
    assert_eq!(StorageNamespace::GenesisFile(id()).encode(), "abc123/genesis.json");
    assert_eq!(
        StorageNamespace::AvalanchedBin(id()).encode(),
        "abc123/install/avalanched"
    );
    assert_eq!(
        StorageNamespace::AvalancheBinCompressed(id()).encode(),
        "abc123/install/avalanche.zstd"
    );
    assert_eq!(StorageNamespace::PluginsDir(id()).encode(), "abc123/install/plugins");
    assert_eq!(StorageNamespace::PkiKeyDir(id()).encode(), "abc123/pki");
    assert_eq!(
        StorageNamespace::DiscoverProvisioningAnchorNodesDir(id()).encode(),
        "abc123/discover/provisioning-anchor-nodes"
    );
    assert_eq!(
        StorageNamespace::DiscoverProvisioningNonAnchorNodesDir(id()).encode(),
        "abc123/discover/provisioning-non-anchor-nodes"
    );
    assert_eq!(
        StorageNamespace::DiscoverBootstrappingAnchorNodesDir(id()).encode(),
        "abc123/discover/bootstrapping-anchor-nodes"
    );
    assert_eq!(
        StorageNamespace::DiscoverReadyAnchorNodesDir(id()).encode(),
        "abc123/discover/ready-anchor-nodes"
    );
    assert_eq!(
        StorageNamespace::DiscoverReadyNonAnchorNodesDir(id()).encode(),
        "abc123/discover/ready-non-anchor-nodes"
    );
    assert_eq!(StorageNamespace::BackupsDir(id()).encode(), "abc123/backups");
    assert_eq!(
        StorageNamespace::EventsUpdateArtifactsEvent(id()).encode(),
        "abc123/events/update-artifacts/event"
    );
    assert_eq!(
        StorageNamespace::EventsUpdateArtifactsInstallDirAvalancheBinCompressed(id()).encode(),
        "abc123/events/update-artifacts/install/avalanche.zstd"
    );
    assert_eq!(
        StorageNamespace::EventsUpdateArtifactsInstallDirPluginsDir(id()).encode(),
        "abc123/events/update-artifacts/install/plugins"
    );
}

#[test]
fn stack_name_encode() {
    let id = || String::from("mycluster");
    assert_eq!(
        StackName::Ec2InstanceRole(id()).encode(),
        "mycluster-ec2-instance-role"
    );
    assert_eq!(StackName::Vpc(id()).encode(), "mycluster-vpc");
    assert_eq!(
        StackName::AsgBeaconNodes(id()).encode(),
        "mycluster-asg-anchor-nodes"
    );
    assert_eq!(
        StackName::AsgNonBeaconNodes(id()).encode(),
        "mycluster-asg-non-anchor-nodes"
    );
}

#[test]
fn phase_transitions() {
    assert_eq!(
        next_phase(Kind::Anchor, Phase::Provisioning),
        Some(Phase::Bootstrapping)
    );
    assert_eq!(next_phase(Kind::Anchor, Phase::Bootstrapping), Some(Phase::Ready));
    assert_eq!(next_phase(Kind::Anchor, Phase::Ready), None);
    assert_eq!(
        next_phase(Kind::NonAnchor, Phase::Provisioning),
        Some(Phase::Ready)
    );
    assert_eq!(next_phase(Kind::NonAnchor, Phase::Bootstrapping), None);

    // a node seen mid-transition counts as being in the later phase
    assert_eq!(most_advanced_phase(true, true, false), Some(Phase::Bootstrapping));
    assert_eq!(most_advanced_phase(true, false, true), Some(Phase::Ready));
    assert_eq!(most_advanced_phase(true, false, false), Some(Phase::Provisioning));
    assert_eq!(most_advanced_phase(false, false, false), None);
}
