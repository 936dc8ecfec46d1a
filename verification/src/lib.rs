//! Client side of a service registry: one registration kept alive by
//! heartbeats, and cached, load-balanced lookups of other services.

pub mod cache;
pub mod client;
pub mod error;
pub mod registration;
pub mod resources;
pub mod utils;

pub use crate::cache::ServiceCache;
pub use crate::client::{Resolution, WatchtowerClient};
pub use crate::error::WatchtowerError;
pub use crate::registration::Registration;
pub use crate::resources::http_client::HttpClient;
pub use crate::resources::instance_info::InstanceInfo;
pub use crate::resources::load_balancer;
pub use crate::resources::service::Service;
pub use crate::resources::load_balancer::{LoadBalancer, RoundRobinLoadBalancer};
