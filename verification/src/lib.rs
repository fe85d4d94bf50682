//! Cluster configuration management for Talos clusters: the configuration
//! model, the rows it is stored as, the pages and replies of the web front end,
//! and the deployment summary.

pub mod schema;
pub mod reply;
pub mod clusters;
pub mod datasource;
pub mod datasource_postgresql;
pub mod deploiement;
pub mod edit;
