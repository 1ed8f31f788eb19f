//! The request-execution core of an HTTP client runtime: streaming request
//! bodies, node selection, retry and backoff rules, QoS classification, the
//! attempt loop as a state machine, and live-reloadable client state.

pub mod body;
pub mod body_writer;
pub mod buffer;
pub mod channel;
pub mod client;
pub mod client_factory;
pub mod config;
pub mod error;
pub mod header;
pub mod live;
pub mod metrics;
pub mod node;
pub mod progress;
pub mod qos;
pub mod request;
pub mod response;
pub mod retry;
pub mod transfer;

pub use body::Body;
pub use body::BytesBody;
pub use body::ResetTrackingBody;
pub use body_writer::BodyPart;
pub use body_writer::BodyWriter;
pub use client::ClientState;
pub use client::UserAgent;
pub use client_factory::Client;
pub use client_factory::ClientFactory;
pub use config::ServiceConfig;
pub use config::ServicesConfig;
pub use metrics::HostMetricsRegistry;
pub use node::NodeSelector;
pub use progress::Progress;
pub use request::Request;
pub use response::Response;
pub use response::ResponseBody;
pub use retry::Idempotency;
pub use retry::RetryPolicy;
pub use retry::ServerQos;
pub use retry::ServiceError;
