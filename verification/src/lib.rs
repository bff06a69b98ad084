//! Cluster tooling for provisioning and bootstrapping a fleet of blockchain
//! nodes over shared object storage.
//!
//! The crate covers the cluster specification (derivation, validation,
//! persistence model), the storage namespace through which booting machines
//! discover each other, the node identity codec behind it, a stack lifecycle
//! state machine, and the health report decoder.

use vstd::prelude::*;

pub mod avalanchego;
pub mod aws;
pub mod codec;
pub mod coreth;
pub mod errors;
pub mod genesis;
pub mod health;
pub mod ids;
pub mod key;
pub mod node;
pub mod stack;
pub mod subnet_evm;
pub mod text;

use crate::errors::{EncodeError, ParseError};
use crate::node::{encodable, spec_token, Node, NodeView};

verus! {

/// Default number of seed keys generated for a new cluster.
pub const DEFAULT_KEYS_TO_GENERATE: usize = 5;

/// Default number of anchor nodes; only custom networks have any.
pub const DEFAULT_MACHINE_ANCHOR_NODES: u32 = 2;

pub const MIN_MACHINE_ANCHOR_NODES: u32 = 1;

pub const MAX_MACHINE_ANCHOR_NODES: u32 = 10;

/// Default number of non-anchor nodes.
pub const DEFAULT_MACHINE_NON_ANCHOR_NODES: u32 = 2;

pub const MIN_MACHINE_NON_ANCHOR_NODES: u32 = 1;

pub const MAX_MACHINE_NON_ANCHOR_NODES: u32 = 200;

/// Endpoints of a cluster that has come up.  Populated only after
/// creation; read-only from the specification's point of view.
#[derive(Debug, PartialEq, Clone)]
pub struct Endpoints {
    pub http_rpc: Option<String>,
    pub http_rpc_x: Option<String>,
    pub http_rpc_p: Option<String>,
    pub http_rpc_c: Option<String>,
    pub metrics: Option<String>,
    pub health: Option<String>,
    pub liveness: Option<String>,
    pub metamask_rpc: Option<String>,
    pub websocket: Option<String>,
}

impl Endpoints {
    /// An endpoint set with nothing populated yet.
    pub fn default() -> (r: Self)
        ensures
            r.http_rpc is None,
            r.http_rpc_x is None,
            r.http_rpc_p is None,
            r.http_rpc_c is None,
            r.metrics is None,
            r.health is None,
            r.liveness is None,
            r.metamask_rpc is None,
            r.websocket is None,
    {
        Self {
            http_rpc: None,
            http_rpc_x: None,
            http_rpc_p: None,
            http_rpc_c: None,
            metrics: None,
            health: None,
            liveness: None,
            metamask_rpc: None,
            websocket: None,
        }
    }
}

/// How the machines of a cluster are laid out.
#[derive(Debug, Eq, PartialEq, Clone)]
pub struct Machine {
    /// Number of anchor nodes; `None` for well-known networks.
    pub anchor_nodes: Option<u32>,
    /// Number of non-anchor nodes.
    pub non_anchor_nodes: u32,
    /// Allowed machine instance types.
    pub instance_types: Option<Vec<String>>,
}

/// Local paths of the artifacts installed onto remote machines.
#[derive(Debug, Eq, PartialEq, Clone)]
pub struct InstallArtifacts {
    /// Agent binary path in the local environment.
    pub avalanched_bin: String,
    /// Node binary path in the local environment.
    pub avalanchego_bin: String,
    /// Optional plugin directory in the local environment.
    pub plugins_dir: Option<String>,
}

/// The name of one infrastructure stack of a cluster, in dependency order:
/// instance role, network, then one machine group per node class.
#[derive(Debug, Eq, PartialEq, Clone)]
pub enum StackName {
    Ec2InstanceRole(String),
    Vpc(String),
    AsgBeaconNodes(String),
    AsgNonBeaconNodes(String),
}

impl StackName {
    /// The stack name for this resource of the cluster.
    pub open spec fn spec_encode(self) -> Seq<char> {
        match self {
            StackName::Ec2InstanceRole(id) => id@ + "-ec2-instance-role"@,
            StackName::Vpc(id) => id@ + "-vpc"@,
            StackName::AsgBeaconNodes(id) => id@ + "-asg-anchor-nodes"@,
            StackName::AsgNonBeaconNodes(id) => id@ + "-asg-non-anchor-nodes"@,
        }
    }

    /// Renders the stack name.
    pub fn encode(&self) -> (r: String)
        ensures
            r@ == self.spec_encode(),
    {
        match self {
            StackName::Ec2InstanceRole(id) => {
                let mut r = id.clone();
                r.append("-ec2-instance-role");
                r
            },
            StackName::Vpc(id) => {
                let mut r = id.clone();
                r.append("-vpc");
                r
            },
            StackName::AsgBeaconNodes(id) => {
                let mut r = id.clone();
                r.append("-asg-anchor-nodes");
                r
            },
            StackName::AsgNonBeaconNodes(id) => {
                let mut r = id.clone();
                r.append("-asg-non-anchor-nodes");
                r
            },
        }
    }
}

/// One key path in the cluster's shared object storage, per purpose.
/// The layout is a compatibility surface: every machine of the cluster
/// computes the same paths from the cluster id alone.
#[derive(Debug, Clone)]
pub enum StorageNamespace {
    ConfigFile(String),
    DevMachineConfigFile(String),
    Ec2AccessKeyCompressedEncrypted(String),
    /// Genesis file with initial stakers; written once anchors are up.
    GenesisFile(String),
    AvalanchedBin(String),
    AvalancheBinCompressed(String),
    PluginsDir(String),
    PkiKeyDir(String),
    DiscoverProvisioningAnchorNodesDir(String),
    DiscoverProvisioningAnchorNode(String, Node),
    DiscoverProvisioningNonAnchorNodesDir(String),
    DiscoverProvisioningNonAnchorNode(String, Node),
    DiscoverBootstrappingAnchorNodesDir(String),
    DiscoverBootstrappingAnchorNode(String, Node),
    DiscoverReadyAnchorNodesDir(String),
    DiscoverReadyAnchorNode(String, Node),
    DiscoverReadyNonAnchorNodesDir(String),
    DiscoverReadyNonAnchorNode(String, Node),
    BackupsDir(String),
    /// Touching this marker triggers artifact updates on the machines.
    EventsUpdateArtifactsEvent(String),
    EventsUpdateArtifactsInstallDirAvalancheBinCompressed(String),
    EventsUpdateArtifactsInstallDirPluginsDir(String),
}

/// A per-node discovery entry: `{id}{dir}/{machine_id}_{token}.yaml`.
pub open spec fn node_entry_path(id: Seq<char>, dir: Seq<char>, n: NodeView) -> Seq<char> {
    id + dir + n.machine_id + "_"@ + spec_token(n) + ".yaml"@
}

impl StorageNamespace {
    /// The storage key this purpose maps to.
    pub open spec fn spec_path(self) -> Seq<char> {
        match self {
            StorageNamespace::ConfigFile(id) => id@ + "/avalanche-ops.config.yaml"@,
            StorageNamespace::DevMachineConfigFile(id) => id@ + "/dev-machine.config.yaml"@,
            StorageNamespace::Ec2AccessKeyCompressedEncrypted(id) => id@
                + "/ec2-access-key.zstd.seal_aes_256.encrypted"@,
            StorageNamespace::GenesisFile(id) => id@ + "/genesis.json"@,
            StorageNamespace::AvalanchedBin(id) => id@ + "/install/avalanched"@,
            StorageNamespace::AvalancheBinCompressed(id) => id@ + "/install/avalanche.zstd"@,
            StorageNamespace::PluginsDir(id) => id@ + "/install/plugins"@,
            StorageNamespace::PkiKeyDir(id) => id@ + "/pki"@,
            StorageNamespace::DiscoverProvisioningAnchorNodesDir(id) => id@
                + "/discover/provisioning-anchor-nodes"@,
            StorageNamespace::DiscoverProvisioningAnchorNode(id, n) => node_entry_path(
                id@,
                "/discover/provisioning-anchor-nodes/"@,
                n@,
            ),
            StorageNamespace::DiscoverProvisioningNonAnchorNodesDir(id) => id@
                + "/discover/provisioning-non-anchor-nodes"@,
            StorageNamespace::DiscoverProvisioningNonAnchorNode(id, n) => node_entry_path(
                id@,
                "/discover/provisioning-non-anchor-nodes/"@,
                n@,
            ),
            StorageNamespace::DiscoverBootstrappingAnchorNodesDir(id) => id@
                + "/discover/bootstrapping-anchor-nodes"@,
            StorageNamespace::DiscoverBootstrappingAnchorNode(id, n) => node_entry_path(
                id@,
                "/discover/bootstrapping-anchor-nodes/"@,
                n@,
            ),
            StorageNamespace::DiscoverReadyAnchorNodesDir(id) => id@
                + "/discover/ready-anchor-nodes"@,
            StorageNamespace::DiscoverReadyAnchorNode(id, n) => node_entry_path(
                id@,
                "/discover/ready-anchor-nodes/"@,
                n@,
            ),
            StorageNamespace::DiscoverReadyNonAnchorNodesDir(id) => id@
                + "/discover/ready-non-anchor-nodes"@,
            StorageNamespace::DiscoverReadyNonAnchorNode(id, n) => node_entry_path(
                id@,
                "/discover/ready-non-anchor-nodes/"@,
                n@,
            ),
            StorageNamespace::BackupsDir(id) => id@ + "/backups"@,
            StorageNamespace::EventsUpdateArtifactsEvent(id) => id@
                + "/events/update-artifacts/event"@,
            StorageNamespace::EventsUpdateArtifactsInstallDirAvalancheBinCompressed(id) => id@
                + "/events/update-artifacts/install/avalanche.zstd"@,
            StorageNamespace::EventsUpdateArtifactsInstallDirPluginsDir(id) => id@
                + "/events/update-artifacts/install/plugins"@,
        }
    }

    /// The per-node variants must hold an encodable identity record.
    pub open spec fn wf(self) -> bool {
        match self {
            StorageNamespace::DiscoverProvisioningAnchorNode(_, n) => encodable(n@),
            StorageNamespace::DiscoverProvisioningNonAnchorNode(_, n) => encodable(n@),
            StorageNamespace::DiscoverBootstrappingAnchorNode(_, n) => encodable(n@),
            StorageNamespace::DiscoverReadyAnchorNode(_, n) => encodable(n@),
            StorageNamespace::DiscoverReadyNonAnchorNode(_, n) => encodable(n@),
            _ => true,
        }
    }

    /// Renders the storage key for this purpose.
    pub fn encode(&self) -> (r: String)
        requires
            self.wf(),
        ensures
            r@ == self.spec_path(),
    {
        match self {
            StorageNamespace::ConfigFile(id) => join_id(id, "/avalanche-ops.config.yaml"),
            StorageNamespace::DevMachineConfigFile(id) => join_id(id, "/dev-machine.config.yaml"),
            StorageNamespace::Ec2AccessKeyCompressedEncrypted(id) => join_id(
                id,
                "/ec2-access-key.zstd.seal_aes_256.encrypted",
            ),
            StorageNamespace::GenesisFile(id) => join_id(id, "/genesis.json"),
            StorageNamespace::AvalanchedBin(id) => join_id(id, "/install/avalanched"),
            StorageNamespace::AvalancheBinCompressed(id) => join_id(id, "/install/avalanche.zstd"),
            StorageNamespace::PluginsDir(id) => join_id(id, "/install/plugins"),
            StorageNamespace::PkiKeyDir(id) => join_id(id, "/pki"),
            StorageNamespace::DiscoverProvisioningAnchorNodesDir(id) => join_id(
                id,
                "/discover/provisioning-anchor-nodes",
            ),
            StorageNamespace::DiscoverProvisioningAnchorNode(id, n) => node_entry(
                id,
                "/discover/provisioning-anchor-nodes/",
                n,
            ),
            StorageNamespace::DiscoverProvisioningNonAnchorNodesDir(id) => join_id(
                id,
                "/discover/provisioning-non-anchor-nodes",
            ),
            StorageNamespace::DiscoverProvisioningNonAnchorNode(id, n) => node_entry(
                id,
                "/discover/provisioning-non-anchor-nodes/",
                n,
            ),
            StorageNamespace::DiscoverBootstrappingAnchorNodesDir(id) => join_id(
                id,
                "/discover/bootstrapping-anchor-nodes",
            ),
            StorageNamespace::DiscoverBootstrappingAnchorNode(id, n) => node_entry(
                id,
                "/discover/bootstrapping-anchor-nodes/",
                n,
            ),
            StorageNamespace::DiscoverReadyAnchorNodesDir(id) => join_id(
                id,
                "/discover/ready-anchor-nodes",
            ),
            StorageNamespace::DiscoverReadyAnchorNode(id, n) => node_entry(
                id,
                "/discover/ready-anchor-nodes/",
                n,
            ),
            StorageNamespace::DiscoverReadyNonAnchorNodesDir(id) => join_id(
                id,
                "/discover/ready-non-anchor-nodes",
            ),
            StorageNamespace::DiscoverReadyNonAnchorNode(id, n) => node_entry(
                id,
                "/discover/ready-non-anchor-nodes/",
                n,
            ),
            StorageNamespace::BackupsDir(id) => join_id(id, "/backups"),
            StorageNamespace::EventsUpdateArtifactsEvent(id) => join_id(
                id,
                "/events/update-artifacts/event",
            ),
            StorageNamespace::EventsUpdateArtifactsInstallDirAvalancheBinCompressed(id) => join_id(
                id,
                "/events/update-artifacts/install/avalanche.zstd",
            ),
            StorageNamespace::EventsUpdateArtifactsInstallDirPluginsDir(id) => join_id(
                id,
                "/events/update-artifacts/install/plugins",
            ),
        }
    }

    /// What parsing a storage path yields: defined only for per-node
    /// discovery entries.  The file name must split into a machine id and
    /// a token around a single separator, and the token must decode.
    pub open spec fn spec_parse_node(path: Seq<char>) -> Result<NodeView, ParseError> {
        let fname = text::after_last_slash(path);
        if fname.len() == 0 {
            Err(ParseError::MissingFileName)
        } else if text::count_char(fname, '_') != 1 {
            Err(ParseError::SeparatorCount)
        } else {
            let u = choose|i: int| 0 <= i < fname.len() && fname[i] == '_';
            let tok_ext = fname.skip(u + 1);
            let tok = if text::spec_ends_with(tok_ext, ".yaml"@) {
                tok_ext.take(tok_ext.len() - 5)
            } else {
                tok_ext
            };
            match node::spec_decode_token(tok) {
                Ok(n) => Ok(n),
                Err(e) => Err(ParseError::Token(e)),
            }
        }
    }

    /// Recovers the node identity from a per-node discovery path.
    pub fn parse_node_from_path(storage_path: &str) -> (r: Result<Node, ParseError>)
        ensures
            match r {
                Ok(n) => Self::spec_parse_node(storage_path@) == Ok::<NodeView, ParseError>(n@),
                Err(e) => Self::spec_parse_node(storage_path@) == Err::<NodeView, ParseError>(e),
            },
    {
        let len = storage_path.unicode_len();
        let fname = match text::find_last_char(storage_path, '/') {
            Some(i) => {
                proof {
                    text::lemma_after_last_slash_skip(storage_path@, i as int);
                }
                storage_path.substring_char(i + 1, len)
            },
            None => {
                proof {
                    text::lemma_after_last_slash_none(storage_path@);
                }
                storage_path
            },
        };
        assert(fname@ == text::after_last_slash(storage_path@));
        let flen = fname.unicode_len();
        if flen == 0 {
            return Err(ParseError::MissingFileName);
        }
        if text::count_char_occurrences(fname, '_') != 1 {
            return Err(ParseError::SeparatorCount);
        }
        let u = match text::find_last_char(fname, '_') {
            Some(u) => u,
            None => {
                proof {
                    text::lemma_count_char_zero(fname@, '_');
                }
                return Err(ParseError::SeparatorCount);
            },
        };
        proof {
            let w = choose|i: int| 0 <= i < fname@.len() && fname@[i] == '_';
            text::lemma_count_char_unique(fname@, '_', u as int, w);
        }
        let tok_ext = fname.substring_char(u + 1, flen);
        assert(tok_ext@ == fname@.skip(u + 1));
        let tok = if text::ends_with_str(tok_ext, ".yaml") {
            proof {
                reveal_strlit(".yaml");
            }
            let telen = tok_ext.unicode_len();
            tok_ext.substring_char(0, telen - 5)
        } else {
            tok_ext
        };
        proof {
            reveal_strlit(".yaml");
            if text::spec_ends_with(tok_ext@, ".yaml"@) {
                assert(tok@ =~= tok_ext@.take(tok_ext@.len() - 5));
            }
        }
        match Node::decompress_base58(tok.to_owned()) {
            Ok(n) => Ok(n),
            Err(e) => Err(ParseError::Token(e)),
        }
    }
}

fn join_id(id: &String, tail: &str) -> (r: String)
    ensures
        r@ == id@ + tail@,
{
    let mut r = id.clone();
    r.append(tail);
    r
}

fn node_entry(id: &String, dir: &str, n: &Node) -> (r: String)
    requires
        encodable(n@),
    ensures
        r@ == node_entry_path(id@, dir@, n@),
{
    let token = match n.compress_base58() {
        Ok(t) => t,
        Err(_) => {
            proof {
                assert(false);
            }
            String::new()
        },
    };
    let mut r = id.clone();
    r.append(dir);
    r.append(n.machine_id.as_str());
    r.append("_");
    r.append(token.as_str());
    r.append(".yaml");
    proof {
        assert(r@ =~= node_entry_path(id@, dir@, n@));
    }
    r
}

/// A node identity can always be read back from the discovery path it was
/// published under: parsing the ready-non-anchor entry for a record gives
/// the record.  The machine id may not contain the separator or a slash,
/// which the cloud's instance identifiers never do.
pub proof fn lemma_parse_node_path_inverse(id: Seq<char>, n: NodeView)
    requires
        encodable(n),
        forall|i: int| 0 <= i < n.machine_id.len() ==> n.machine_id[i] != '/',
        forall|i: int| 0 <= i < n.machine_id.len() ==> n.machine_id[i] != '_',
    ensures
        StorageNamespace::spec_parse_node(
            node_entry_path(id, "/discover/ready-non-anchor-nodes/"@, n),
        ) == Ok::<NodeView, ParseError>(n),
{
    reveal_strlit("/discover/ready-non-anchor-nodes/");
    let dir = "/discover/ready-non-anchor-nodes/"@;
    assert(dir.len() == 33);
    assert(dir.last() == '/');
    lemma_parse_node_entry(id, dir, n);
}

/// The same inverse holds for every discovery directory whose name ends
/// with a slash.
proof fn lemma_parse_node_entry(id: Seq<char>, dir: Seq<char>, n: NodeView)
    requires
        encodable(n),
        dir.len() > 0,
        dir.last() == '/',
        forall|i: int| 0 <= i < n.machine_id.len() ==> n.machine_id[i] != '/',
        forall|i: int| 0 <= i < n.machine_id.len() ==> n.machine_id[i] != '_',
    ensures
        StorageNamespace::spec_parse_node(node_entry_path(id, dir, n)) == Ok::<
            NodeView,
            ParseError,
        >(n),
{
    let path = node_entry_path(id, dir, n);
    let token = spec_token(n);
    let tail = n.machine_id + "_"@ + token + ".yaml"@;
    let head = id + dir;
    reveal_strlit("_");
    reveal_strlit(".yaml");
    codec::lemma_b58_pairs_alphabet(codec::rle(node::pack_node(n)));
    assert forall|i: int| 0 <= i < token.len() implies token[i] != '/' && token[i] != '_' by {
        codec::lemma_b58_digit_safe(token[i]);
    }
    assert(forall|i: int| 0 <= i < ".yaml"@.len() ==> ".yaml"@[i] != '/');
    assert(forall|i: int| 0 <= i < ".yaml"@.len() ==> ".yaml"@[i] != '_');
    assert("_"@ =~= seq!['_']);
    assert(path =~= head + tail);
    assert(head.last() == '/');
    assert(forall|i: int| 0 <= i < tail.len() ==> #[trigger] tail[i] != '/');
    text::lemma_after_last_slash_concat(head, tail);
    assert(text::after_last_slash(path) == tail);
    assert(tail.len() > 0);
    let u = n.machine_id.len() as int;
    assert(tail[u] == '_');
    assert(forall|i: int| 0 <= i < tail.len() && i != u ==> #[trigger] tail[i] != '_');
    text::lemma_count_char_one(tail, '_', u);
    let w = choose|i: int| 0 <= i < tail.len() && tail[i] == '_';
    text::lemma_count_char_unique(tail, '_', u, w);
    let tok_ext = tail.skip(w + 1);
    assert(tok_ext =~= token + ".yaml"@);
    assert(text::spec_ends_with(tok_ext, ".yaml"@)) by {
        assert(tok_ext.skip(tok_ext.len() - 5) =~= ".yaml"@);
    }
    assert(tok_ext.take(tok_ext.len() - 5) =~= token);
    node::lemma_token_round_trip(n);
}

/// Results of checking that the install artifacts exist on the local
/// filesystem.  The caller performs the filesystem probes and hands the
/// outcome in; validation itself is pure.
#[derive(Debug, Clone, Copy, PartialEq, Eq, Structural)]
pub struct ArtifactPresence {
    /// The agent binary path exists.
    pub avalanched_bin: bool,
    /// The node binary path exists.
    pub avalanchego_bin: bool,
    /// The configured plugin directory exists; irrelevant when none is
    /// configured.
    pub plugins_dir: bool,
}

/// The options a default specification is derived from.
#[derive(Debug, Eq, PartialEq, Clone)]
pub struct DefaultSpecOption {
    pub log_level: String,
    pub network_name: String,
    pub keys_to_generate: usize,
    pub region: String,
    pub db_backup_s3_region: String,
    pub db_backup_s3_bucket: String,
    pub db_backup_s3_key: String,
    pub nlb_acm_certificate_arn: String,
    pub install_artifacts_avalanched_bin: String,
    pub install_artifacts_avalanche_bin: String,
    pub install_artifacts_plugins_dir: String,
    pub avalanchego_log_level: String,
    pub avalanchego_whitelisted_subnets: String,
    pub avalanchego_http_tls_enabled: bool,
    pub avalanchego_state_sync_ids: String,
    pub avalanchego_state_sync_ips: String,
    pub avalanchego_profile_continuous_enabled: bool,
    pub avalanchego_profile_continuous_freq: String,
    pub avalanchego_profile_continuous_max_files: String,
    pub coreth_metrics_enabled: bool,
    pub coreth_continuous_profiler_enabled: bool,
    pub coreth_offline_pruning_enabled: bool,
    pub enable_subnet_evm: bool,
    pub disable_instance_system_logs: bool,
    pub disable_instance_system_metrics: bool,
    pub spec_file_path: String,
}

/// The cluster specification: the validated, derivable configuration
/// describing machine topology, network identity and genesis parameters.
/// One per cluster; persisted as a document and mutated in place as the
/// cluster comes up.
#[derive(Debug, PartialEq, Clone)]
pub struct Spec {
    /// User-provided cluster id; also the root of every storage key.
    pub id: String,
    /// Cloud resources, when the cluster runs in the cloud.
    pub aws_resources: Option<aws::Resources>,
    /// Machine topology; must be non-empty.
    pub machine: Machine,
    /// Artifacts shared with the remote machines.
    pub install_artifacts: InstallArtifacts,
    /// Node runtime configuration as laid down on each machine.
    pub avalanchego_config: avalanchego::Config,
    /// EVM chain runtime configuration.
    pub coreth_config: coreth::Config,
    /// Genesis template; present exactly for custom networks.  Named a
    /// template because the to-be-created node ids are not in it yet.
    pub avalanchego_genesis_template: Option<genesis::Genesis>,
    /// Genesis of the optional EVM-compatible subnet.
    pub subnet_evm_genesis: Option<subnet_evm::Genesis>,
    /// The seed key whose balance is locked behind the initial stake.
    pub generated_seed_private_key_with_locked_p_chain_balance: Option<key::KeyInfo>,
    /// The immediately unlocked seed keys.
    pub generated_seed_private_keys: Option<Vec<key::KeyInfo>>,
    /// All nodes currently known; may be stale.
    pub current_nodes: Option<Vec<Node>>,
    /// Populated only once the cluster is usable; read-only here.
    pub endpoints: Option<Endpoints>,
}

impl Spec {
    /// The number of anchor nodes asked for, counting absence as zero.
    pub open spec fn spec_anchors(self) -> u32 {
        match self.machine.anchor_nodes {
            Some(v) => v,
            None => 0,
        }
    }

    /// The first violated invariant, in checking order, or `None` when
    /// the specification is valid.
    pub open spec fn spec_first_violation(self, present: ArtifactPresence) -> Option<
        errors::ValidationError,
    > {
        if self.id@.len() == 0 {
            Some(errors::ValidationError::IdEmpty)
        } else if self.id@.len() > 28 {
            Some(errors::ValidationError::IdTooLong)
        } else if self.aws_resources matches Some(a) && a.region@.len() == 0 {
            Some(errors::ValidationError::RegionEmpty)
        } else if self.aws_resources matches Some(a) && (a.db_backup_s3_region is Some
            || a.db_backup_s3_key is Some) && a.db_backup_s3_bucket is None {
            Some(errors::ValidationError::DbBackupBucketMissing)
        } else if self.aws_resources matches Some(a) && a.db_backup_s3_bucket is Some
            && a.db_backup_s3_key is None {
            Some(errors::ValidationError::DbBackupKeyMissing)
        } else if self.aws_resources matches Some(a) && a.db_backup_s3_bucket is Some
            && a.db_backup_s3_region is None {
            Some(errors::ValidationError::DbBackupRegionMissing)
        } else if self.machine.non_anchor_nodes < MIN_MACHINE_NON_ANCHOR_NODES {
            Some(errors::ValidationError::NonAnchorNodesTooFew)
        } else if self.machine.non_anchor_nodes > MAX_MACHINE_NON_ANCHOR_NODES {
            Some(errors::ValidationError::NonAnchorNodesTooMany)
        } else if !present.avalanched_bin {
            Some(errors::ValidationError::AvalanchedBinMissing)
        } else if !present.avalanchego_bin {
            Some(errors::ValidationError::AvalanchegoBinMissing)
        } else if self.install_artifacts.plugins_dir is Some && !present.plugins_dir {
            Some(errors::ValidationError::PluginsDirMissing)
        } else if !self.avalanchego_config.spec_is_custom_network()
            && self.avalanchego_genesis_template is Some {
            Some(errors::ValidationError::GenesisOnKnownNetwork)
        } else if !self.avalanchego_config.spec_is_custom_network() && self.spec_anchors() > 0 {
            Some(errors::ValidationError::AnchorNodesOnKnownNetwork)
        } else if self.avalanchego_config.spec_is_custom_network()
            && self.avalanchego_genesis_template is None {
            Some(errors::ValidationError::GenesisMissingForCustomNetwork)
        } else if self.avalanchego_config.spec_is_custom_network() && self.spec_anchors() == 0 {
            Some(errors::ValidationError::AnchorNodesZeroForCustomNetwork)
        } else if self.avalanchego_config.spec_is_custom_network() && self.spec_anchors()
            > MAX_MACHINE_ANCHOR_NODES {
            Some(errors::ValidationError::AnchorNodesTooMany)
        } else {
            None
        }
    }

    /// Every invariant of the specification, as one conjunction.
    pub open spec fn spec_valid(self, present: ArtifactPresence) -> bool {
        &&& 0 < self.id@.len() <= 28
        &&& (self.aws_resources matches Some(a) ==> {
            &&& a.region@.len() > 0
            &&& ((a.db_backup_s3_region is Some || a.db_backup_s3_bucket is Some
                || a.db_backup_s3_key is Some) ==> (a.db_backup_s3_region is Some
                && a.db_backup_s3_bucket is Some && a.db_backup_s3_key is Some))
        })
        &&& MIN_MACHINE_NON_ANCHOR_NODES <= self.machine.non_anchor_nodes
            <= MAX_MACHINE_NON_ANCHOR_NODES
        &&& present.avalanched_bin
        &&& present.avalanchego_bin
        &&& (self.install_artifacts.plugins_dir is Some ==> present.plugins_dir)
        &&& (!self.avalanchego_config.spec_is_custom_network() ==> {
            &&& self.avalanchego_genesis_template is None
            &&& self.spec_anchors() == 0
        })
        &&& (self.avalanchego_config.spec_is_custom_network() ==> {
            &&& self.avalanchego_genesis_template is Some
            &&& MIN_MACHINE_ANCHOR_NODES <= self.spec_anchors() <= MAX_MACHINE_ANCHOR_NODES
        })
    }

    /// Fail-fast validation reports exactly the specification's
    /// invariants: no violation is found precisely when they all hold.
    pub proof fn lemma_validation_complete(self, present: ArtifactPresence)
        ensures
            self.spec_first_violation(present) is None <==> self.spec_valid(present),
    {
    }

    /// Checks every invariant, returning the first violated one.
    /// Whether the three artifact paths exist on the local filesystem is
    /// passed in as `present`.
    pub fn validate(&self, present: &ArtifactPresence) -> (r: Result<(), errors::ValidationError>)
        ensures
            r is Ok <==> self.spec_first_violation(*present) is None,
            r matches Err(e) ==> self.spec_first_violation(*present) == Some(e),
    {
        if self.id.as_str().unicode_len() == 0 {
            return Err(errors::ValidationError::IdEmpty);
        }
        if self.id.as_str().unicode_len() > 28 {
            return Err(errors::ValidationError::IdTooLong);
        }
        match &self.aws_resources {
            Some(a) => {
                if a.region.as_str().unicode_len() == 0 {
                    return Err(errors::ValidationError::RegionEmpty);
                }
                if (a.db_backup_s3_region.is_some() || a.db_backup_s3_key.is_some())
                    && a.db_backup_s3_bucket.is_none() {
                    return Err(errors::ValidationError::DbBackupBucketMissing);
                }
                if a.db_backup_s3_bucket.is_some() && a.db_backup_s3_key.is_none() {
                    return Err(errors::ValidationError::DbBackupKeyMissing);
                }
                if a.db_backup_s3_bucket.is_some() && a.db_backup_s3_region.is_none() {
                    return Err(errors::ValidationError::DbBackupRegionMissing);
                }
            },
            None => {},
        }
        if self.machine.non_anchor_nodes < MIN_MACHINE_NON_ANCHOR_NODES {
            return Err(errors::ValidationError::NonAnchorNodesTooFew);
        }
        if self.machine.non_anchor_nodes > MAX_MACHINE_NON_ANCHOR_NODES {
            return Err(errors::ValidationError::NonAnchorNodesTooMany);
        }
        if !present.avalanched_bin {
            return Err(errors::ValidationError::AvalanchedBinMissing);
        }
        if !present.avalanchego_bin {
            return Err(errors::ValidationError::AvalanchegoBinMissing);
        }
        if self.install_artifacts.plugins_dir.is_some() && !present.plugins_dir {
            return Err(errors::ValidationError::PluginsDirMissing);
        }
        let anchors = match self.machine.anchor_nodes {
            Some(v) => v,
            None => 0,
        };
        if !self.avalanchego_config.is_custom_network() {
            if self.avalanchego_genesis_template.is_some() {
                return Err(errors::ValidationError::GenesisOnKnownNetwork);
            }
            if anchors > 0 {
                return Err(errors::ValidationError::AnchorNodesOnKnownNetwork);
            }
        } else {
            if self.avalanchego_genesis_template.is_none() {
                return Err(errors::ValidationError::GenesisMissingForCustomNetwork);
            }
            if anchors == 0 {
                return Err(errors::ValidationError::AnchorNodesZeroForCustomNetwork);
            }
            if anchors > MAX_MACHINE_ANCHOR_NODES {
                return Err(errors::ValidationError::AnchorNodesTooMany);
            }
        }
        Ok(())
    }
}

impl Spec {
    /// Derives a default specification from a small option set.
    ///
    /// A recognized network name selects that well-known network: no
    /// anchor nodes and no genesis template.  Any other name selects the
    /// reserved custom network id, the default anchor count and a fresh
    /// genesis template pre-funding the generated keys.  Optional
    /// overrides are applied only when non-empty, so absent options never
    /// force a field to an explicit empty value.
    pub fn default_aws(opt: DefaultSpecOption) -> (r: Self)
        requires
            opt.keys_to_generate >= 1,
            opt.avalanchego_profile_continuous_max_files@.len() == 0 || text::spec_parse_u32(
                opt.avalanchego_profile_continuous_max_files@,
            ) is Some,
            opt.spec_file_path@.len() > 0 ==> text::file_stem(opt.spec_file_path@).len() > 0,
        ensures
    // network resolution

            avalanchego::spec_network_name_to_id(opt.network_name@) matches Some(v)
                ==> r.avalanchego_config.network_id == v,
            avalanchego::spec_network_name_to_id(opt.network_name@) is None
                ==> r.avalanchego_config.network_id == avalanchego::DEFAULT_CUSTOM_NETWORK_ID,
            // topology and genesis presence
            avalanchego::spec_network_name_to_id(opt.network_name@) is Some ==> {
                &&& r.machine.anchor_nodes is None
                &&& r.avalanchego_genesis_template is None
                &&& r.avalanchego_config.genesis is None
            },
            avalanchego::spec_network_name_to_id(opt.network_name@) is None ==> {
                &&& r.machine.anchor_nodes == Some(DEFAULT_MACHINE_ANCHOR_NODES)
                &&& r.avalanchego_genesis_template matches Some(g) && g.network_id
                    == avalanchego::DEFAULT_CUSTOM_NETWORK_ID && g.allocations@.len()
                    == opt.keys_to_generate
            },
            r.machine.non_anchor_nodes == DEFAULT_MACHINE_NON_ANCHOR_NODES,
            r.machine.instance_types matches Some(t) && t@.len() == 4,
            // generated key material: one locked, the rest unlocked
            r.generated_seed_private_key_with_locked_p_chain_balance matches Some(k)
                && key::well_formed_key(k),
            r.generated_seed_private_keys matches Some(v) && v@.len() == opt.keys_to_generate - 1
                && (forall|i: int| 0 <= i < v@.len() ==> key::well_formed_key(#[trigger] v@[i])),
            // the optional EVM subnet is seeded with every generated address
            opt.enable_subnet_evm ==> {
                &&& r.subnet_evm_genesis matches Some(g)
                &&& g.alloc matches Some(al) && al@.len() == opt.keys_to_generate
                &&& g.config matches Some(cc)
                &&& cc.contract_deployer_allow_list_config matches Some(ad)
                &&& ad.allow_list_admins matches Some(adm) && adm@.len() == opt.keys_to_generate
            },
            !opt.enable_subnet_evm ==> r.subnet_evm_genesis is None,
            // node runtime configuration and its optional overrides
            r.avalanchego_config.log_level matches Some(l) && l@ == opt.avalanchego_log_level@,
            opt.avalanchego_http_tls_enabled ==> {
                &&& r.avalanchego_config.http_tls_enabled == Some(true)
                &&& r.avalanchego_config.http_tls_key_file
                    == r.avalanchego_config.staking_tls_key_file
                &&& r.avalanchego_config.http_tls_cert_file
                    == r.avalanchego_config.staking_tls_cert_file
            },
            !opt.avalanchego_http_tls_enabled ==> r.avalanchego_config.http_tls_enabled == Some(
                false,
            ),
            opt.avalanchego_state_sync_ids@.len() > 0 ==> (r.avalanchego_config.state_sync_ids
                matches Some(x) && x@ == opt.avalanchego_state_sync_ids@),
            opt.avalanchego_state_sync_ids@.len() == 0 ==> r.avalanchego_config.state_sync_ids
                is None,
            opt.avalanchego_state_sync_ips@.len() > 0 ==> (r.avalanchego_config.state_sync_ips
                matches Some(x) && x@ == opt.avalanchego_state_sync_ips@),
            opt.avalanchego_state_sync_ips@.len() == 0 ==> r.avalanchego_config.state_sync_ips
                is None,
            opt.avalanchego_profile_continuous_enabled
                ==> r.avalanchego_config.profile_continuous_enabled == Some(true),
            !opt.avalanchego_profile_continuous_enabled
                ==> r.avalanchego_config.profile_continuous_enabled is None,
            opt.avalanchego_profile_continuous_freq@.len() > 0
                ==> (r.avalanchego_config.profile_continuous_freq matches Some(x) && x@
                == opt.avalanchego_profile_continuous_freq@),
            opt.avalanchego_profile_continuous_freq@.len() == 0
                ==> r.avalanchego_config.profile_continuous_freq is None,
            opt.avalanchego_profile_continuous_max_files@.len() > 0
                ==> r.avalanchego_config.profile_continuous_max_files == text::spec_parse_u32(
                opt.avalanchego_profile_continuous_max_files@,
            ),
            opt.avalanchego_profile_continuous_max_files@.len() == 0
                ==> r.avalanchego_config.profile_continuous_max_files is None,
            opt.avalanchego_whitelisted_subnets@.len() > 0
                ==> (r.avalanchego_config.whitelisted_subnets matches Some(x) && x@
                == opt.avalanchego_whitelisted_subnets@),
            opt.avalanchego_whitelisted_subnets@.len() == 0
                ==> r.avalanchego_config.whitelisted_subnets is None,
            // cluster id: the spec file stem, or a time-stamped name
            opt.spec_file_path@.len() > 0 ==> r.id@ == text::file_stem(opt.spec_file_path@),
            (opt.spec_file_path@.len() == 0 && avalanchego::spec_network_name_to_id(
                opt.network_name@,
            ) is Some) ==> (exists|t: nat|
                r.id@ == "aops-"@ + avalanchego::spec_network_id_to_name(
                    r.avalanchego_config.network_id,
                ).unwrap() + "-"@ + text::dec_rep(t)),
            (opt.spec_file_path@.len() == 0 && avalanchego::spec_network_name_to_id(
                opt.network_name@,
            ) is None) ==> (exists|t: nat| r.id@ == "aops-custom-"@ + text::dec_rep(t)),
            // cloud resources
            r.aws_resources matches Some(a) && {
                &&& a.region@ == opt.region@
                &&& a.s3_bucket@.len() == 31
                &&& a.s3_bucket@.take(14) == "avalanche-ops-"@
                &&& (opt.db_backup_s3_region@.len() > 0 ==> (a.db_backup_s3_region matches Some(x)
                    && x@ == opt.db_backup_s3_region@))
                &&& (opt.db_backup_s3_region@.len() == 0 ==> a.db_backup_s3_region is None)
                &&& (opt.db_backup_s3_bucket@.len() > 0 ==> (a.db_backup_s3_bucket matches Some(x)
                    && x@ == opt.db_backup_s3_bucket@))
                &&& (opt.db_backup_s3_bucket@.len() == 0 ==> a.db_backup_s3_bucket is None)
                &&& (opt.db_backup_s3_key@.len() > 0 ==> (a.db_backup_s3_key matches Some(x) && x@
                    == opt.db_backup_s3_key@))
                &&& (opt.db_backup_s3_key@.len() == 0 ==> a.db_backup_s3_key is None)
                &&& (opt.nlb_acm_certificate_arn@.len() > 0 ==> (a.nlb_acm_certificate_arn matches
                    Some(x) && x@ == opt.nlb_acm_certificate_arn@))
                &&& (opt.nlb_acm_certificate_arn@.len() == 0 ==> a.nlb_acm_certificate_arn is None)
                &&& a.instance_system_logs == Some(!opt.disable_instance_system_logs)
                &&& a.instance_system_metrics == Some(!opt.disable_instance_system_metrics)
            },
            // install artifacts
            r.install_artifacts.avalanched_bin@ == opt.install_artifacts_avalanched_bin@,
            r.install_artifacts.avalanchego_bin@ == opt.install_artifacts_avalanche_bin@,
            opt.install_artifacts_plugins_dir@.len() > 0 ==> (r.install_artifacts.plugins_dir
                matches Some(x) && x@ == opt.install_artifacts_plugins_dir@),
            opt.install_artifacts_plugins_dir@.len() == 0 ==> r.install_artifacts.plugins_dir
                is None,
            // EVM chain runtime overrides
            opt.coreth_metrics_enabled ==> r.coreth_config.metrics_enabled == Some(true),
            opt.coreth_continuous_profiler_enabled ==> {
                &&& r.coreth_config.continuous_profiler_dir matches Some(d) && d@
                    == coreth::spec_default_profile_dir()
                &&& r.coreth_config.continuous_profiler_frequency == Some(
                    coreth::DEFAULT_PROFILE_FREQUENCY,
                )
                &&& r.coreth_config.continuous_profiler_max_files == Some(
                    coreth::DEFAULT_PROFILE_MAX_FILES,
                )
            },
            !opt.coreth_continuous_profiler_enabled ==> r.coreth_config.continuous_profiler_dir
                is None,
            opt.coreth_offline_pruning_enabled ==> r.coreth_config.offline_pruning_enabled == Some(
                true,
            ),
            !opt.coreth_offline_pruning_enabled ==> r.coreth_config.offline_pruning_enabled
                is None,
            // nothing discovered yet
            r.current_nodes is None,
            r.endpoints is None,
    {
        let network_id = match avalanchego::network_name_to_id(opt.network_name.as_str()) {
            Some(v) => v,
            None => avalanchego::DEFAULT_CUSTOM_NETWORK_ID,
        };
        let mut avalanchego_config = avalanchego::Config::default();
        avalanchego_config.network_id = network_id;
        avalanchego_config.log_level = Some(opt.avalanchego_log_level.clone());
        if !avalanchego_config.is_custom_network() {
            avalanchego_config.genesis = None;
        }
        // only set optional values when non-empty: the runtime treats an
        // explicit empty value as configured but invalid
        if opt.avalanchego_http_tls_enabled {
            avalanchego_config.http_tls_enabled = Some(true);
            avalanchego_config.http_tls_key_file = match &avalanchego_config.staking_tls_key_file {
                Some(f) => Some(f.clone()),
                None => None,
            };
            avalanchego_config.http_tls_cert_file = match &avalanchego_config
                .staking_tls_cert_file {
                Some(f) => Some(f.clone()),
                None => None,
            };
        }
        if opt.avalanchego_state_sync_ids.as_str().unicode_len() > 0 {
            avalanchego_config.state_sync_ids = Some(opt.avalanchego_state_sync_ids.clone());
        }
        if opt.avalanchego_state_sync_ips.as_str().unicode_len() > 0 {
            avalanchego_config.state_sync_ips = Some(opt.avalanchego_state_sync_ips.clone());
        }
        if opt.avalanchego_profile_continuous_enabled {
            avalanchego_config.profile_continuous_enabled = Some(true);
        }
        if opt.avalanchego_profile_continuous_freq.as_str().unicode_len() > 0 {
            avalanchego_config.profile_continuous_freq = Some(
                opt.avalanchego_profile_continuous_freq.clone(),
            );
        }
        if opt.avalanchego_profile_continuous_max_files.as_str().unicode_len() > 0 {
            let parsed = match text::parse_u32(opt.avalanchego_profile_continuous_max_files.as_str()) {
                Some(v) => v,
                None => {
                    proof {
                        assert(false);
                    }
                    0
                },
            };
            avalanchego_config.profile_continuous_max_files = Some(parsed);
        }
        if opt.avalanchego_whitelisted_subnets.as_str().unicode_len() > 0 {
            avalanchego_config.whitelisted_subnets = Some(
                opt.avalanchego_whitelisted_subnets.clone(),
            );
        }
        let id = if opt.spec_file_path.as_str().unicode_len() > 0 {
            text::file_stem_of(opt.spec_file_path.as_str()).to_owned()
        } else {
            match avalanchego::network_id_to_name(network_id) {
                Some(name) => {
                    let mut prefix = "aops-".to_owned();
                    prefix.append(name.as_str());
                    let r = ids::with_time(prefix.as_str());
                    proof {
                        let t = choose|t: nat| r@ == prefix@ + "-"@ + text::dec_rep(t);
                        assert(r@ =~= "aops-"@ + name@ + "-"@ + text::dec_rep(t));
                    }
                    r
                },
                None => {
                    let r = ids::with_time("aops-custom");
                    proof {
                        reveal_strlit("aops-custom");
                        reveal_strlit("aops-custom-");
                        reveal_strlit("-");
                        let t = choose|t: nat| r@ == "aops-custom"@ + "-"@ + text::dec_rep(t);
                        assert(r@ =~= "aops-custom-"@ + text::dec_rep(t));
                    }
                    r
                },
            }
        };
        let anchor_nodes = if avalanchego_config.is_custom_network() {
            Some(DEFAULT_MACHINE_ANCHOR_NODES)
        } else {
            None
        };
        let mut instance_types: Vec<String> = Vec::new();
        instance_types.push("c6a.large".to_owned());
        instance_types.push("m6a.large".to_owned());
        instance_types.push("m5.large".to_owned());
        instance_types.push("c5.large".to_owned());
        let machine = Machine {
            anchor_nodes,
            non_anchor_nodes: DEFAULT_MACHINE_NON_ANCHOR_NODES,
            instance_types: Some(instance_types),
        };
        let (avalanchego_genesis_template, generated_seed_keys) = if avalanchego_config
            .is_custom_network() {
            let (g, seed_keys) = genesis::Genesis::new(network_id, opt.keys_to_generate);
            (Some(g), seed_keys)
        } else {
            // a well-known network has only pre-funded keys; no template
            (None, key::generate_n(opt.keys_to_generate))
        };
        let generated_seed_private_key_with_locked_p_chain_balance = Some(
            generated_seed_keys[0].clone(),
        );
        let mut unlocked: Vec<key::KeyInfo> = Vec::new();
        let mut ki: usize = 1;
        while ki < generated_seed_keys.len()
            invariant
                1 <= ki <= generated_seed_keys@.len(),
                unlocked@.len() == ki - 1,
                forall|j: int|
                    0 <= j < generated_seed_keys@.len() ==> key::well_formed_key(
                        #[trigger] generated_seed_keys@[j],
                    ),
                forall|j: int| 0 <= j < unlocked@.len() ==> key::well_formed_key(
                    #[trigger] unlocked@[j],
                ),
            decreases generated_seed_keys@.len() - ki,
        {
            unlocked.push(generated_seed_keys[ki].clone());
            ki += 1;
        }
        let generated_seed_private_keys = Some(unlocked);
        let subnet_evm_genesis = if opt.enable_subnet_evm {
            let mut allocs: Vec<subnet_evm::Alloc> = Vec::new();
            let mut admins: Vec<String> = Vec::new();
            let mut ai: usize = 0;
            while ai < generated_seed_keys.len()
                invariant
                    ai <= generated_seed_keys@.len(),
                    allocs@.len() == ai,
                    admins@.len() == ai,
                decreases generated_seed_keys@.len() - ai,
            {
                allocs.push(
                    subnet_evm::Alloc {
                        address: key::strip_0x(generated_seed_keys[ai].eth_address.as_str())
                            .to_owned(),
                        account: subnet_evm::AllocAccount::default(),
                    },
                );
                admins.push(generated_seed_keys[ai].eth_address.clone());
                ai += 1;
            }
            let mut chain_config = subnet_evm::ChainConfig::default();
            let mut allow_list = subnet_evm::ContractDeployerAllowListConfig::default();
            allow_list.allow_list_admins = Some(admins);
            chain_config.contract_deployer_allow_list_config = Some(allow_list);
            let mut g = subnet_evm::Genesis::default();
            g.alloc = Some(allocs);
            g.config = Some(chain_config);
            Some(g)
        } else {
            None
        };
        let mut aws_resources = aws::Resources::default();
        aws_resources.region = opt.region;
        // a globally scoped name: coarse date stamp plus host-derived suffix
        aws_resources.s3_bucket = ids::bucket_name();
        if opt.db_backup_s3_region.as_str().unicode_len() > 0 {
            aws_resources.db_backup_s3_region = Some(opt.db_backup_s3_region);
        }
        if opt.db_backup_s3_bucket.as_str().unicode_len() > 0 {
            aws_resources.db_backup_s3_bucket = Some(opt.db_backup_s3_bucket);
        }
        if opt.db_backup_s3_key.as_str().unicode_len() > 0 {
            aws_resources.db_backup_s3_key = Some(opt.db_backup_s3_key);
        }
        if opt.nlb_acm_certificate_arn.as_str().unicode_len() > 0 {
            aws_resources.nlb_acm_certificate_arn = Some(opt.nlb_acm_certificate_arn);
        }
        if opt.disable_instance_system_logs {
            aws_resources.instance_system_logs = Some(false);
        }
        if opt.disable_instance_system_metrics {
            aws_resources.instance_system_metrics = Some(false);
        }
        let mut install_artifacts = InstallArtifacts {
            avalanched_bin: opt.install_artifacts_avalanched_bin,
            avalanchego_bin: opt.install_artifacts_avalanche_bin,
            plugins_dir: None,
        };
        if opt.install_artifacts_plugins_dir.as_str().unicode_len() > 0 {
            install_artifacts.plugins_dir = Some(opt.install_artifacts_plugins_dir);
        }
        let mut coreth_config = coreth::Config::default();
        if opt.coreth_metrics_enabled {
            coreth_config.metrics_enabled = Some(true);
        }
        if opt.coreth_continuous_profiler_enabled {
            coreth_config.continuous_profiler_dir = Some(coreth::Config::default_profile_dir());
            coreth_config.continuous_profiler_frequency = Some(coreth::DEFAULT_PROFILE_FREQUENCY);
            coreth_config.continuous_profiler_max_files = Some(coreth::DEFAULT_PROFILE_MAX_FILES);
        }
        if opt.coreth_offline_pruning_enabled {
            coreth_config.offline_pruning_enabled = Some(true);
        }
        Self {
            id,
            aws_resources: Some(aws_resources),
            machine,
            install_artifacts,
            avalanchego_config,
            coreth_config,
            avalanchego_genesis_template,
            subnet_evm_genesis,
            generated_seed_private_key_with_locked_p_chain_balance,
            generated_seed_private_keys,
            current_nodes: None,
            endpoints: None,
        }
    }
}

} // verus!
