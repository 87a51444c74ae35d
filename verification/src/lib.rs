pub mod approval;
pub mod bridge;
pub mod harness;
pub mod model;
pub mod paths;
pub mod risk;
pub mod store;
pub mod text;
