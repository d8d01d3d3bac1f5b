//! The shared model of the containers and what is known of each.

pub mod container;
pub mod container_id;
pub mod json_log_formatter;
pub mod laws;
pub mod store;

pub use container::{ContainerItem, ContainerSummary, ContainerView, State};
pub use container_id::ContainerId;
pub use store::AppData;
