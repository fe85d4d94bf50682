//! How a cluster configuration is stored in a PostgreSQL data source: the
//! tables and the rows that a configuration is written as.

use vstd::prelude::*;

use crate::schema::{ClusterConfiguration, ClusterNode, Config, Node};

verus! {

/// Creates the table of the nodes of the clusters, where it is missing.
pub const CREATE_CLUSTER_NODE_TABLE: &'static str = "CREATE TABLE IF NOT EXISTS cluster_node (
            id SERIAL PRIMARY KEY,
            cluster_name VARCHAR NOT NULL,
            hostname VARCHAR NOT NULL,
            ip_address VARCHAR NOT NULL,
            control_plane BOOL NOT NULL,
            arch VARCHAR NOT NULL,
            install_disk VARCHAR NOT NULL
        )";

/// Creates the table of the configurations of the clusters, where it is missing.
pub const CREATE_CLUSTER_CONFIGURATION_TABLE: &'static str = "CREATE TABLE IF NOT EXISTS cluster_configuration (
            id SERIAL PRIMARY KEY,
            cluster_name VARCHAR NOT NULL,
            talos_version VARCHAR NOT NULL,
            endpoint VARCHAR NOT NULL,
            domain VARCHAR NOT NULL,
            cni_config_name VARCHAR NOT NULL
        )";

/// `row` is the `cluster_configuration` row of `config`: its name, versions
/// and addresses, and the name of its CNI configuration.
pub open spec fn is_configuration_row(row: ClusterConfiguration, config: Config) -> bool {
    &&& row.cluster_name@ == config.cluster_name@
    &&& row.talos_version@ == config.talos_version@
    &&& row.endpoint@ == config.endpoint@
    &&& row.domain@ == config.domain@
    &&& row.cni_config_name@ == config.cni_config.name@
}

/// `row` is the `cluster_node` row of `node` in the cluster `cluster_name`.
pub open spec fn is_node_row(row: ClusterNode, cluster_name: Seq<char>, node: Node) -> bool {
    &&& row.cluster_name@ == cluster_name
    &&& row.hostname@ == node.hostname@
    &&& row.ip_address@ == node.ip_address@
    &&& row.control_plane == node.control_plane
    &&& row.arch@ == node.arch@
    &&& row.install_disk@ == node.install_disk@
}

impl Config {
    /// The `cluster_configuration` row that this configuration is stored as.
    pub fn configuration_row(&self) -> (row: ClusterConfiguration)
        ensures
            is_configuration_row(row, *self),
            row.cluster_name@ == self.cluster_name@,
            row.talos_version@ == self.talos_version@,
            row.endpoint@ == self.endpoint@,
            row.domain@ == self.domain@,
            row.cni_config_name@ == self.cni_config.name@,
    {
        ClusterConfiguration {
            cluster_name: self.cluster_name.clone(),
            talos_version: self.talos_version.clone(),
            endpoint: self.endpoint.clone(),
            domain: self.domain.clone(),
            cni_config_name: self.cni_config.name.clone(),
        }
    }

    /// The `cluster_node` rows that the nodes of this configuration are stored
    /// as: one row for each node, in order, each in this cluster.
    pub fn node_rows(&self) -> (rows: Vec<ClusterNode>)
        ensures
            rows@.len() == self.nodes@.len(),
            forall|i: int|
                0 <= i < rows@.len() ==> is_node_row(#[trigger] rows@[i], self.cluster_name@, self.nodes@[i]),
            forall|i: int|
                0 <= i < rows@.len() ==> {
                    &&& (#[trigger] rows@[i]).cluster_name@ == self.cluster_name@
                    &&& rows@[i].hostname@ == self.nodes@[i].hostname@
                    &&& rows@[i].ip_address@ == self.nodes@[i].ip_address@
                    &&& rows@[i].control_plane == self.nodes@[i].control_plane
                    &&& rows@[i].arch@ == self.nodes@[i].arch@
                    &&& rows@[i].install_disk@ == self.nodes@[i].install_disk@
                },
    {
        let mut rows: Vec<ClusterNode> = Vec::new();
        let mut i: usize = 0;
        while i < self.nodes.len()
            invariant
                i <= self.nodes@.len(),
                rows@.len() == i,
                forall|k: int|
                    0 <= k < i ==> is_node_row(#[trigger] rows@[k], self.cluster_name@, self.nodes@[k]),
            decreases self.nodes.len() - i,
        {
            let node = &self.nodes[i];
            let row = ClusterNode {
                cluster_name: self.cluster_name.clone(),
                hostname: node.hostname.clone(),
                ip_address: node.ip_address.clone(),
                control_plane: node.control_plane,
                arch: node.arch.clone(),
                install_disk: node.install_disk.clone(),
            };
            rows.push(row);
            i = i + 1;
        }
        rows
    }
}

} // verus!
