pub mod http_client;
pub mod instance_info;
pub mod load_balancer;
pub mod service;

pub use http_client::HttpClient;
pub use instance_info::InstanceInfo;
pub use service::Service;
