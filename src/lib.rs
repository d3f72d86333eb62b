//! Provisioning of short-lived executors (one pod plus one service) on a
//! Kubernetes control plane: descriptor building, request encoding, and the
//! incremental decoding of control-plane replies into typed outcomes.

pub mod descriptor;
pub mod error;
pub mod decode;
pub mod transport;
pub mod cluster;
