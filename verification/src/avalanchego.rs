//! Node runtime configuration and the well-known network table.

use vstd::prelude::*;

use crate::text;

verus! {

/// The network id used when no well-known network name was given.
pub const DEFAULT_CUSTOM_NETWORK_ID: u32 = 1000000;

pub const DEFAULT_HTTP_PORT: u32 = 9650;

pub const DEFAULT_STAKING_PORT: u32 = 9651;

pub const DEFAULT_SNOW_SAMPLE_SIZE: u32 = 20;

pub const DEFAULT_SNOW_QUORUM_SIZE: u32 = 15;

/// The id of a well-known public network, by name.
pub open spec fn spec_network_name_to_id(name: Seq<char>) -> Option<u32> {
    if name == "mainnet"@ {
        Some(1u32)
    } else if name == "cascade"@ {
        Some(2u32)
    } else if name == "denali"@ {
        Some(3u32)
    } else if name == "everest"@ {
        Some(4u32)
    } else if name == "fuji"@ {
        Some(5u32)
    } else {
        None
    }
}

/// True when `id` is one of the well-known public networks.
pub open spec fn spec_network_id_known(id: u32) -> bool {
    1 <= id <= 5
}

/// The name of a well-known public network, by id.
pub open spec fn spec_network_id_to_name(id: u32) -> Option<Seq<char>> {
    if id == 1 {
        Some("mainnet"@)
    } else if id == 2 {
        Some("cascade"@)
    } else if id == 3 {
        Some("denali"@)
    } else if id == 4 {
        Some("everest"@)
    } else if id == 5 {
        Some("fuji"@)
    } else {
        None
    }
}

/// Looks a network name up in the well-known table.
pub fn network_name_to_id(name: &str) -> (r: Option<u32>)
    ensures
        r == spec_network_name_to_id(name@),
{
    if text::str_equal(name, "mainnet") {
        Some(1)
    } else if text::str_equal(name, "cascade") {
        Some(2)
    } else if text::str_equal(name, "denali") {
        Some(3)
    } else if text::str_equal(name, "everest") {
        Some(4)
    } else if text::str_equal(name, "fuji") {
        Some(5)
    } else {
        None
    }
}

/// Looks a network id up in the well-known table.
pub fn network_id_to_name(id: u32) -> (r: Option<String>)
    ensures
        match r {
            Some(n) => spec_network_id_to_name(id) == Some(n@),
            None => spec_network_id_to_name(id) is None,
        },
{
    match id {
        1 => Some("mainnet".to_owned()),
        2 => Some("cascade".to_owned()),
        3 => Some("denali".to_owned()),
        4 => Some("everest".to_owned()),
        5 => Some("fuji".to_owned()),
        _ => None,
    }
}

/// Node runtime configuration, as laid down on every machine.  Optional
/// fields must stay absent rather than be set to explicit empty values,
/// which the runtime would reject.
#[derive(Debug, PartialEq, Clone)]
pub struct Config {
    /// Path of this very configuration on the machine.
    pub config_file: Option<String>,
    pub network_id: u32,
    /// Path of the genesis file; only present on custom networks.
    pub genesis: Option<String>,
    pub log_level: Option<String>,
    pub log_dir: String,
    pub db_type: String,
    pub db_dir: String,
    pub http_port: u32,
    pub http_host: String,
    pub http_tls_enabled: Option<bool>,
    pub http_tls_key_file: Option<String>,
    pub http_tls_cert_file: Option<String>,
    pub staking_enabled: Option<bool>,
    pub staking_port: u32,
    pub staking_tls_key_file: Option<String>,
    pub staking_tls_cert_file: Option<String>,
    pub state_sync_ids: Option<String>,
    pub state_sync_ips: Option<String>,
    pub profile_continuous_enabled: Option<bool>,
    pub profile_continuous_freq: Option<String>,
    pub profile_continuous_max_files: Option<u32>,
    pub whitelisted_subnets: Option<String>,
    pub snow_sample_size: Option<u32>,
    pub snow_quorum_size: Option<u32>,
    pub chain_config_dir: String,
    pub subnet_config_dir: String,
    pub profile_dir: String,
}

impl Config {
    /// True when this configuration is for a custom network rather than
    /// one of the well-known public networks.
    pub open spec fn spec_is_custom_network(self) -> bool {
        !spec_network_id_known(self.network_id)
    }

    /// Tests whether the configured network is a custom one.
    pub fn is_custom_network(&self) -> (r: bool)
        ensures
            r == self.spec_is_custom_network(),
    {
        network_id_to_name(self.network_id).is_none()
    }

    /// The stock configuration: a custom network with staking on, the
    /// usual ports, and a genesis path that is dropped again for
    /// well-known networks.
    pub fn default() -> (r: Self)
        ensures
            r.config_file matches Some(p) && p@ == "/etc/avalanche.config.json"@,
            r.network_id == DEFAULT_CUSTOM_NETWORK_ID,
            r.genesis matches Some(p) && p@ == "/etc/avalanche.genesis.json"@,
            r.log_level is None,
            r.log_dir@ == "/var/log/avalanche"@,
            r.db_type@ == "leveldb"@,
            r.db_dir@ == "/avalanche-data"@,
            r.http_port == DEFAULT_HTTP_PORT,
            r.http_host@ == "0.0.0.0"@,
            r.http_tls_enabled == Some(false),
            r.http_tls_key_file is None,
            r.http_tls_cert_file is None,
            r.staking_enabled == Some(true),
            r.staking_port == DEFAULT_STAKING_PORT,
            r.staking_tls_key_file matches Some(p) && p@ == "/etc/pki/tls/certs/avalanched.pki.key"@,
            r.staking_tls_cert_file matches Some(p) && p@
                == "/etc/pki/tls/certs/avalanched.pki.crt"@,
            r.state_sync_ids is None,
            r.state_sync_ips is None,
            r.profile_continuous_enabled is None,
            r.profile_continuous_freq is None,
            r.profile_continuous_max_files is None,
            r.whitelisted_subnets is None,
            r.snow_sample_size == Some(DEFAULT_SNOW_SAMPLE_SIZE),
            r.snow_quorum_size == Some(DEFAULT_SNOW_QUORUM_SIZE),
            r.chain_config_dir@ == "/etc/avalanche/configs/chains"@,
            r.subnet_config_dir@ == "/etc/avalanche/configs/subnets"@,
            r.profile_dir@ == "/var/log/avalanche-profile/avalanche"@,
    {
        Self {
            config_file: Some("/etc/avalanche.config.json".to_owned()),
            network_id: DEFAULT_CUSTOM_NETWORK_ID,
            genesis: Some("/etc/avalanche.genesis.json".to_owned()),
            log_level: None,
            log_dir: "/var/log/avalanche".to_owned(),
            db_type: "leveldb".to_owned(),
            db_dir: "/avalanche-data".to_owned(),
            http_port: DEFAULT_HTTP_PORT,
            http_host: "0.0.0.0".to_owned(),
            http_tls_enabled: Some(false),
            http_tls_key_file: None,
            http_tls_cert_file: None,
            staking_enabled: Some(true),
            staking_port: DEFAULT_STAKING_PORT,
            staking_tls_key_file: Some("/etc/pki/tls/certs/avalanched.pki.key".to_owned()),
            staking_tls_cert_file: Some("/etc/pki/tls/certs/avalanched.pki.crt".to_owned()),
            state_sync_ids: None,
            state_sync_ips: None,
            profile_continuous_enabled: None,
            profile_continuous_freq: None,
            profile_continuous_max_files: None,
            whitelisted_subnets: None,
            snow_sample_size: Some(DEFAULT_SNOW_SAMPLE_SIZE),
            snow_quorum_size: Some(DEFAULT_SNOW_QUORUM_SIZE),
            chain_config_dir: "/etc/avalanche/configs/chains".to_owned(),
            subnet_config_dir: "/etc/avalanche/configs/subnets".to_owned(),
            profile_dir: "/var/log/avalanche-profile/avalanche".to_owned(),
        }
    }
}

} // verus!
