//! Deployment of a cluster: where its description file lies, and what the
//! deployment answers once the file has been read and parsed.

use vstd::prelude::*;
use vstd::string::StringExecFns;

use crate::schema::Cluster;

verus! {

/// Start of the path of a cluster's description file, before the cluster's name.
pub const CLUSTER_DIR: &'static str = "./cluster/";

/// End of the path of a cluster's description file, after the cluster's name.
pub const CONFIG_FILE: &'static str = "/config.yaml";

/// The error of a deployment whose description file could not be read.
pub const READ_FAILED: &'static str = "Erreur lors de la lecture du fichier YAML.";

/// The error of a deployment whose description file is not a valid cluster.
pub const PARSE_FAILED: &'static str = "Erreur lors de la conversion du YAML.";

/// Start of the summary of a deployment, before the cluster's name.
pub const DEPLOYMENT_PREFIX: &'static str = "Déploiement pour ";

/// Between the cluster's name and its Talos version in the summary of a deployment.
pub const DEPLOYMENT_VERSION: &'static str = " avec version Talos ";

/// Why a cluster's description could not be loaded.
#[derive(Debug, Clone, Copy, PartialEq, Eq)]
pub enum LoadFailure {
    /// The file could not be read.
    Unreadable,
    /// The file is not a valid description of a cluster.
    Malformed,
}

/// The path of the description file of the cluster `cluster_name`.
pub open spec fn config_path_spec(cluster_name: Seq<char>) -> Seq<char> {
    CLUSTER_DIR@ + cluster_name + CONFIG_FILE@
}

/// The summary of the deployment of `cluster`: its name and its Talos version.
pub open spec fn deployment_summary(cluster: Cluster) -> Seq<char> {
    DEPLOYMENT_PREFIX@ + cluster.cluster_name@ + DEPLOYMENT_VERSION@ + cluster.talos_version@
}

/// The path of the description file of the cluster `cluster_name`:
/// `./cluster/<name>/config.yaml`.
pub fn config_path(cluster_name: &str) -> (path: String)
    ensures
        path@ == config_path_spec(cluster_name@),
        path@ == CLUSTER_DIR@ + cluster_name@ + CONFIG_FILE@,
{
    let mut path = String::from_str(CLUSTER_DIR);
    path.append(cluster_name);
    path.append(CONFIG_FILE);
    path
}

/// The outcome of the deployment of a cluster, given what loading its
/// description gave: the summary of the deployment where it was loaded, and
/// otherwise the error that says whether the file could not be read or not
/// be parsed.
pub fn deploy_talos(loaded: Result<Cluster, LoadFailure>) -> (outcome: Result<String, String>)
    ensures
        loaded is Ok <==> outcome is Ok,
        loaded is Ok ==> outcome->Ok_0@ == deployment_summary(loaded->Ok_0),
        loaded is Ok ==> outcome->Ok_0@ == DEPLOYMENT_PREFIX@ + loaded->Ok_0.cluster_name@ + DEPLOYMENT_VERSION@
            + loaded->Ok_0.talos_version@,
        loaded == Err::<Cluster, LoadFailure>(LoadFailure::Unreadable) ==> outcome->Err_0@ == READ_FAILED@,
        loaded == Err::<Cluster, LoadFailure>(LoadFailure::Malformed) ==> outcome->Err_0@ == PARSE_FAILED@,
{
    match loaded {
        Ok(cluster) => {
            let mut summary = String::from_str(DEPLOYMENT_PREFIX);
            summary.append(cluster.cluster_name.as_str());
            summary.append(DEPLOYMENT_VERSION);
            summary.append(cluster.talos_version.as_str());
            Ok(summary)
        },
        Err(LoadFailure::Unreadable) => Err(String::from_str(READ_FAILED)),
        Err(LoadFailure::Malformed) => Err(String::from_str(PARSE_FAILED)),
    }
}

} // verus!
