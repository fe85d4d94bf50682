//! The configuration model of a cluster and the rows it is stored as.

use vstd::prelude::*;

verus! {

/// A cluster configuration as it is submitted by a user.
#[derive(Debug, Clone, PartialEq, Eq)]
pub struct Config {
    pub cluster_name: String,
    pub talos_version: String,
    pub endpoint: String,
    pub domain: String,
    pub cni_config: CniConfig,
    pub nodes: Vec<Node>,
}

/// The CNI configuration of a cluster.
#[derive(Debug, Clone, PartialEq, Eq)]
pub struct CniConfig {
    pub name: String,
}

/// One machine of a cluster.
#[derive(Debug, Clone, PartialEq, Eq)]
pub struct Node {
    pub hostname: String,
    pub ip_address: String,
    pub control_plane: bool,
    pub arch: String,
    pub install_disk: String,
    pub nameservers: Vec<String>,
    pub network_interfaces: Vec<NetworkInterface>,
}

/// A network interface of a node.
#[derive(Debug, Clone, PartialEq, Eq)]
pub struct NetworkInterface {
    pub device_selector: DeviceSelector,
    pub addresses: Vec<String>,
    pub routes: Vec<Route>,
}

/// A route of a network interface.
#[derive(Debug, Clone, PartialEq, Eq)]
pub struct Route {
    pub network: String,
    pub gateway: String,
}

/// Selects the device a network interface is bound to.
#[derive(Debug, Clone, PartialEq, Eq)]
pub struct DeviceSelector {
    pub driver: String,
}

/// A data source: where cluster configurations are stored.
#[derive(Debug, Clone, PartialEq, Eq)]
pub struct Source {
    pub source_type: String,
    pub database_url: String,
}

/// A row of the `cluster_node` table.
#[derive(Debug, Clone, PartialEq, Eq)]
pub struct ClusterNode {
    pub cluster_name: String,
    pub hostname: String,
    pub ip_address: String,
    pub control_plane: bool,
    pub arch: String,
    pub install_disk: String,
}

/// A row of the `cluster_configuration` table.
#[derive(Debug, Clone, PartialEq, Eq)]
pub struct ClusterConfiguration {
    pub cluster_name: String,
    pub talos_version: String,
    pub endpoint: String,
    pub domain: String,
    pub cni_config_name: String,
}

/// A cluster as it is described in its deployment file.
#[derive(Debug, Clone, PartialEq, Eq)]
pub struct Cluster {
    pub cluster_name: String,
    pub talos_version: String,
    pub endpoint: String,
    pub domain: String,
    pub cni_config: CniConfig,
    pub nodes: Vec<Node>,
}

} // verus!
