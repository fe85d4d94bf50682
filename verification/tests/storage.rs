use talos_clusters::datasource_postgresql::{CREATE_CLUSTER_CONFIGURATION_TABLE, CREATE_CLUSTER_NODE_TABLE};
use talos_clusters::deploiement::{config_path, deploy_talos, LoadFailure};
use talos_clusters::schema::{
    Cluster, ClusterConfiguration, ClusterNode, CniConfig, Config, DeviceSelector, NetworkInterface, Node, Route,
};

fn s(text: &str) -> String {
    text.to_string()
}

fn node(hostname: &str, ip: &str, control_plane: bool) -> Node {
    Node {
        hostname: s(hostname),
        ip_address: s(ip),
        control_plane,
        arch: s("amd64"),
        install_disk: s("/dev/sda"),
        nameservers: vec![s("1.1.1.1")],
        network_interfaces: vec![NetworkInterface {
            device_selector: DeviceSelector { driver: s("virtio") },
            addresses: vec![s("10.0.0.2/24")],
            routes: vec![Route { network: s("0.0.0.0/0"), gateway: s("10.0.0.1") }],
        }],
    }
}

fn config() -> Config {
    Config {
        cluster_name: s("homelab"),
        talos_version: s("v1.7.0"),
        endpoint: s("https://10.0.0.10:6443"),
        domain: s("cluster.local"),
        cni_config: CniConfig { name: s("cilium") },
        nodes: vec![node("cp1", "10.0.0.2", true), node("w1", "10.0.0.3", false)],
    }
}

#[test]
fn configuration_row_copies_fields() {
    assert_eq!(
        config().configuration_row(),
        ClusterConfiguration {
            cluster_name: s("homelab"),
            talos_version: s("v1.7.0"),
            endpoint: s("https://10.0.0.10:6443"),
            domain: s("cluster.local"),
            cni_config_name: s("cilium"),
        }
    );
}

#[test]
fn node_rows_one_per_node_in_order() {
    assert_eq!(
        config().node_rows(),
        vec![
            ClusterNode {
                cluster_name: s("homelab"),
                hostname: s("cp1"),
                ip_address: s("10.0.0.2"),
                control_plane: true,
                arch: s("amd64"),
                install_disk: s("/dev/sda"),
            },
            ClusterNode {
                cluster_name: s("homelab"),
                hostname: s("w1"),
                ip_address: s("10.0.0.3"),
                control_plane: false,
                arch: s("amd64"),
                install_disk: s("/dev/sda"),
            },
        ]
    );
}

#[test]
fn no_nodes_no_rows() {
    let mut c = config();
    c.nodes.clear();
    assert!(c.node_rows().is_empty());
}

#[test]
fn table_statements() {
    assert!(CREATE_CLUSTER_NODE_TABLE.starts_with("CREATE TABLE IF NOT EXISTS cluster_node ("));
    assert!(CREATE_CLUSTER_CONFIGURATION_TABLE.contains("cni_config_name VARCHAR NOT NULL"));
}

#[test]
fn config_path_of_cluster() {
    assert_eq!(config_path("homelab"), "./cluster/homelab/config.yaml");
}

fn cluster() -> Cluster {
    let c = config();
    Cluster {
        cluster_name: c.cluster_name,
        talos_version: c.talos_version,
        endpoint: c.endpoint,
        domain: c.domain,
        cni_config: c.cni_config,
        nodes: c.nodes,
    }
}

#[test]
fn deploy_summary() {
    assert_eq!(deploy_talos(Ok(cluster())), Ok(s("Déploiement pour homelab avec version Talos v1.7.0")));
}

#[test]
fn deploy_errors() {
    assert_eq!(deploy_talos(Err(LoadFailure::Unreadable)), Err(s("Erreur lors de la lecture du fichier YAML.")));
    assert_eq!(deploy_talos(Err(LoadFailure::Malformed)), Err(s("Erreur lors de la conversion du YAML.")));
}
