//! A worker's configuration, fixed at startup.

use vstd::prelude::*;

verus! {

/// How an embedded coordinator controls the worker's connections.
#[derive(Debug, Clone, PartialEq, Eq)]
pub struct ConnectionControlConfig {
    pub fast_start: bool,
    pub amf_address: String,
    pub worker_refresh_interval_secs: u16,
}

/// How the worker is reached by, and reaches, a coordinator of its own
/// process.
#[derive(Debug, Clone, PartialEq, Eq)]
pub struct WorkerConnectionManagementConfig {
    pub connection_api_bind_port: u16,
    pub connection_api_base_path: String,
    pub coordinator_base_path: String,
}

/// Who decides which peers the worker connects to: exactly one of the two.
#[derive(Debug, Clone, PartialEq, Eq)]
pub enum ConnectionStyle {
    /// The worker runs a coordinator of its own.
    Autonomous(ConnectionControlConfig),
    /// The worker serves a connection API to an outside coordinator.
    Coordinated(WorkerConnectionManagementConfig),
}

#[derive(Debug, Clone, PartialEq, Eq)]
pub struct Config {
    /// The worker's IP address, in text.
    pub ip_addr: String,
    pub plmn: [u8; 3],
    pub name: Option<String>,
    pub connection_style: ConnectionStyle,
}

impl Config {
    /// The URL under which the worker serves its connection API: none where
    /// it runs its own coordinator.
    pub open spec fn connection_api_url_spec(&self) -> Seq<char> {
        match self.connection_style {
            ConnectionStyle::Autonomous(_) => Seq::<char>::empty(),
            ConnectionStyle::Coordinated(c) => c.connection_api_base_path@,
        }
    }

    pub fn connection_api_url(&self) -> (url: String)
        ensures
            url@ == self.connection_api_url_spec(),
    {
        match &self.connection_style {
            ConnectionStyle::Autonomous(_) => String::new(),
            ConnectionStyle::Coordinated(c) => c.connection_api_base_path.clone(),
        }
    }
}

} // verus!
