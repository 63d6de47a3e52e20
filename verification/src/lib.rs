//! Typed client core for a daemon's HTTP control API, shown through its
//! network endpoints.
//!
//! The layers, leaf first: [`query`] turns an options value into ordered
//! query pairs; [`encode`] writes a request body in the wire encoding;
//! [`request`] composes method, percent-encoded path, query and body into an
//! immutable request descriptor; [`json`] and [`decode`] read a raw response
//! back into a typed result, unit success, or a typed error; [`session`]
//! holds the transport and performs exactly one build → send → decode round
//! trip per call, either directly through [`Docker`] or through the
//! ownership-threaded [`DockerChain`].  Every error a call can produce is a
//! value of [`DockerError`]; no malformed daemon response panics.

pub mod decode;
pub mod encode;
pub mod error;
pub mod json;
pub mod network;
pub mod query;
pub mod request;
pub mod session;

pub use decode::RawResponse;
pub use error::DockerError;
pub use error::DockerErrorV;
pub use json::Json;
pub use json::JsonV;
pub use network::CreateNetworkOptions;
pub use network::CreateNetworkResults;
pub use network::IPAM;
pub use network::IPAMConfig;
pub use network::InspectNetworkOptions;
pub use network::InspectNetworkResults;
pub use network::InspectNetworkResultsContainers;
pub use query::InspectNetworkQueryParams;
pub use request::Method;
pub use request::RequestDescriptor;
pub use session::Docker;
pub use session::DockerChain;
pub use session::ScriptedTransport;
pub use session::Transport;
