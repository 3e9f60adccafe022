//! The configuration that a local replica is started with.

use vstd::prelude::*;
use crate::paths::{join_path, path_join};

verus! {

/// The message for gas limits that do not fit together.
pub const GAS_LIMITS_MESSAGE: &'static str = "Round gas limit must exceed message gas limit.";

/// Why a configuration is refused.
#[derive(Clone, Debug, PartialEq, Eq)]
pub enum ConfigError {
    InvalidData(String),
}

#[derive(Clone, Debug, PartialEq, Eq)]
pub struct HttpHandlerConfig {
    /// Instructs the HTTP handler to use the specified port
    pub port: Option<u16>,
    /// Instructs the HTTP handler to bind to any open port and report the port
    /// to the specified file.
    /// The port is written in its textual representation, no newline at the
    /// end.
    pub write_port_to: Option<String>,
}

pub struct HttpHandlerConfigView {
    pub port: Option<u16>,
    pub write_port_to: Option<Seq<char>>,
}

impl View for HttpHandlerConfig {
    type V = HttpHandlerConfigView;

    open spec fn view(&self) -> HttpHandlerConfigView {
        HttpHandlerConfigView {
            port: self.port,
            write_port_to: match self.write_port_to {
                Some(path) => Some(path@),
                None => None,
            },
        }
    }
}

#[derive(Clone, Copy, Debug, PartialEq, Eq)]
pub struct SchedulerConfig {
    pub exec_gas: Option<u64>,
    pub round_gas_max: Option<u64>,
}

#[derive(Clone, Debug, PartialEq, Eq)]
pub struct ArtifactPoolConfig {
    pub consensus_pool_backend: String,
    pub consensus_pool_path: String,
}

pub struct ArtifactPoolConfigView {
    pub consensus_pool_backend: Seq<char>,
    pub consensus_pool_path: Seq<char>,
}

impl View for ArtifactPoolConfig {
    type V = ArtifactPoolConfigView;

    open spec fn view(&self) -> ArtifactPoolConfigView {
        ArtifactPoolConfigView {
            consensus_pool_backend: self.consensus_pool_backend@,
            consensus_pool_path: self.consensus_pool_path@,
        }
    }
}

#[derive(Clone, Debug, PartialEq, Eq)]
pub struct CryptoConfig {
    pub crypto_root: String,
}

pub struct CryptoConfigView {
    pub crypto_root: Seq<char>,
}

impl View for CryptoConfig {
    type V = CryptoConfigView;

    open spec fn view(&self) -> CryptoConfigView {
        CryptoConfigView { crypto_root: self.crypto_root@ }
    }
}

#[derive(Clone, Debug, PartialEq, Eq)]
pub struct StateManagerConfig {
    pub state_root: String,
}

pub struct StateManagerConfigView {
    pub state_root: Seq<char>,
}

impl View for StateManagerConfig {
    type V = StateManagerConfigView;

    open spec fn view(&self) -> StateManagerConfigView {
        StateManagerConfigView { state_root: self.state_root@ }
    }
}

#[derive(Clone, Debug, PartialEq, Eq)]
pub struct ReplicaConfig {
    pub http_handler: HttpHandlerConfig,
    pub scheduler: SchedulerConfig,
    pub state_manager: StateManagerConfig,
    pub crypto: CryptoConfig,
    pub artifact_pool: ArtifactPoolConfig,
}

pub struct ReplicaConfigView {
    pub http_handler: HttpHandlerConfigView,
    pub scheduler: SchedulerConfig,
    pub state_manager: StateManagerConfigView,
    pub crypto: CryptoConfigView,
    pub artifact_pool: ArtifactPoolConfigView,
}

impl View for ReplicaConfig {
    type V = ReplicaConfigView;

    open spec fn view(&self) -> ReplicaConfigView {
        ReplicaConfigView {
            http_handler: self.http_handler@,
            scheduler: self.scheduler,
            state_manager: self.state_manager@,
            crypto: self.crypto@,
            artifact_pool: self.artifact_pool@,
        }
    }
}

impl Default for HttpHandlerConfig {
    fn default() -> (config: HttpHandlerConfig)
        ensures
            config@ == (HttpHandlerConfigView { port: None, write_port_to: None }),
    {
        HttpHandlerConfig { port: None, write_port_to: None }
    }
}

impl Default for SchedulerConfig {
    fn default() -> (config: SchedulerConfig)
        ensures
            config == (SchedulerConfig { exec_gas: None, round_gas_max: None }),
    {
        SchedulerConfig { exec_gas: None, round_gas_max: None }
    }
}

impl Default for ArtifactPoolConfig {
    fn default() -> (config: ArtifactPoolConfig)
        ensures
            config@ == (ArtifactPoolConfigView {
                consensus_pool_backend: Seq::empty(),
                consensus_pool_path: Seq::empty(),
            }),
    {
        ArtifactPoolConfig {
            consensus_pool_backend: String::new(),
            consensus_pool_path: String::new(),
        }
    }
}

impl Default for CryptoConfig {
    fn default() -> (config: CryptoConfig)
        ensures
            config@ == (CryptoConfigView { crypto_root: Seq::empty() }),
    {
        CryptoConfig { crypto_root: String::new() }
    }
}

impl Default for StateManagerConfig {
    fn default() -> (config: StateManagerConfig)
        ensures
            config@ == (StateManagerConfigView { state_root: Seq::empty() }),
    {
        StateManagerConfig { state_root: String::new() }
    }
}

impl Default for ReplicaConfig {
    /// The configuration with no port, no gas limits and empty paths.
    fn default() -> (config: ReplicaConfig)
        ensures
            config@ == (ReplicaConfigView {
                http_handler: HttpHandlerConfigView { port: None, write_port_to: None },
                scheduler: SchedulerConfig { exec_gas: None, round_gas_max: None },
                state_manager: StateManagerConfigView { state_root: Seq::empty() },
                crypto: CryptoConfigView { crypto_root: Seq::empty() },
                artifact_pool: ArtifactPoolConfigView {
                    consensus_pool_backend: Seq::empty(),
                    consensus_pool_path: Seq::empty(),
                },
            }),
    {
        ReplicaConfig {
            http_handler: HttpHandlerConfig { port: None, write_port_to: None },
            scheduler: SchedulerConfig { exec_gas: None, round_gas_max: None },
            state_manager: StateManagerConfig { state_root: String::new() },
            crypto: CryptoConfig { crypto_root: String::new() },
            artifact_pool: ArtifactPoolConfig {
                consensus_pool_backend: String::new(),
                consensus_pool_path: String::new(),
            },
        }
    }
}

/// Whether the gas limit of a round exceeds that of a message. A limit that
/// is not set is below every limit that is set, and exceeds none.
pub open spec fn round_exceeds_message(config: SchedulerConfig) -> bool {
    match (config.exec_gas, config.round_gas_max) {
        (Some(message), Some(round)) => message < round,
        (None, Some(_)) => true,
        (_, None) => false,
    }
}

impl SchedulerConfig {
    /// Accepts the limits where that of a round exceeds that of a message.
    pub fn validate(self) -> (checked: Result<Self, ConfigError>)
        ensures
            match checked {
                Ok(config) => round_exceeds_message(self) && config == self,
                Err(ConfigError::InvalidData(message)) => !round_exceeds_message(self) && message@
                    == GAS_LIMITS_MESSAGE@,
            },
    {
        let exceeds = match (self.exec_gas, self.round_gas_max) {
            (Some(message), Some(round)) => message < round,
            (None, Some(_)) => true,
            (_, None) => false,
        };
        if !exceeds {
            Err(ConfigError::InvalidData(GAS_LIMITS_MESSAGE.to_owned()))
        } else {
            Ok(self)
        }
    }
}

impl ReplicaConfig {
    /// The configuration of a replica that keeps its state under
    /// `state_root`, with no port chosen and no gas limits set.
    pub fn new(state_root: &str) -> (config: Self)
        ensures
            config@ == (ReplicaConfigView {
                http_handler: HttpHandlerConfigView { port: None, write_port_to: None },
                scheduler: SchedulerConfig { exec_gas: None, round_gas_max: None },
                state_manager: StateManagerConfigView {
                    state_root: path_join(state_root@, "replicated_state"@),
                },
                crypto: CryptoConfigView { crypto_root: path_join(state_root@, "crypto_store"@) },
                artifact_pool: ArtifactPoolConfigView {
                    consensus_pool_backend: "rocksdb"@,
                    consensus_pool_path: path_join(state_root@, "consensus_pool"@),
                },
            }),
    {
        ReplicaConfig {
            http_handler: HttpHandlerConfig { write_port_to: None, port: None },
            scheduler: SchedulerConfig { exec_gas: None, round_gas_max: None },
            state_manager: StateManagerConfig {
                state_root: join_path(state_root, "replicated_state"),
            },
            crypto: CryptoConfig { crypto_root: join_path(state_root, "crypto_store") },
            artifact_pool: ArtifactPoolConfig {
                consensus_pool_backend: "rocksdb".to_owned(),
                consensus_pool_path: join_path(state_root, "consensus_pool"),
            },
        }
    }

    /// Fixes the port of the HTTP handler; the port is then reported to no
    /// file.
    pub fn with_port(&mut self, port: u16) -> (config: &mut Self)
        ensures
            config@ == (ReplicaConfigView {
                http_handler: HttpHandlerConfigView { port: Some(port), write_port_to: None },
                ..old(self)@
            }),
            *final(self) == *final(config),
    {
        self.http_handler.port = Some(port);
        self.http_handler.write_port_to = None;
        self
    }

    /// Lets the HTTP handler bind to any open port and report it to
    /// `write_port_to`. Returns a copy of the configuration as it then is.
    pub fn with_random_port(&mut self, write_port_to: &str) -> (config: Self)
        ensures
            final(self)@ == (ReplicaConfigView {
                http_handler: HttpHandlerConfigView {
                    port: None,
                    write_port_to: Some(write_port_to@),
                },
                ..old(self)@
            }),
            config@ == final(self)@,
    {
        self.http_handler.port = None;
        self.http_handler.write_port_to = Some(write_port_to.to_owned());
        ReplicaConfig {
            http_handler: HttpHandlerConfig {
                port: None,
                write_port_to: Some(write_port_to.to_owned()),
            },
            scheduler: self.scheduler,
            state_manager: StateManagerConfig { state_root: self.state_manager.state_root.clone() },
            crypto: CryptoConfig { crypto_root: self.crypto.crypto_root.clone() },
            artifact_pool: ArtifactPoolConfig {
                consensus_pool_backend: self.artifact_pool.consensus_pool_backend.clone(),
                consensus_pool_path: self.artifact_pool.consensus_pool_path.clone(),
            },
        }
    }
}

} // verus!
