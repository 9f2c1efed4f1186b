//! Kubernetes custom resources for NetGene nodes and their reconciliation.

pub mod controller;
pub mod crd;
