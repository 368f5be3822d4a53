//! Orchestration logic for provisioning a host, deploying an enclave image
//! to it, and binding a key to the enclave's measured identity.
//!
//! The library holds the decision logic of the orchestrator: classifying
//! stack statuses, driving the deployment pipeline in strict step order,
//! building the exact remote commands, and rendering the key policy. The
//! surrounding binary performs the network and process I/O and feeds the
//! observed results back in as plain values.

pub mod commands;
pub mod enclave;
pub mod errors;
pub mod keys;
pub mod pipeline;
pub mod stack;
pub mod text;
