//! Reconciliation logic of a controller that keeps a NiFi cluster and its
//! ZooKeeper ensemble in line with one custom resource.
pub mod naming;
pub mod error;
pub mod resource;
pub mod sync;
pub mod cascade;
pub mod configmap;
pub mod plan;
pub mod reconcile;
