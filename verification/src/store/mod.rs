pub mod control_surface;
pub mod host_execution;
pub mod outbound;
pub mod persist;
pub mod projection;
