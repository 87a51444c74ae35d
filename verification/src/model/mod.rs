//! Domain records exchanged between the host bridge, the harness and the store.
pub mod authorization;
pub mod bridge;
pub mod ids;
pub mod ingress;
pub mod outbound;
pub mod risk;
pub mod shared;
pub mod task;
pub mod cloning;
