//! Client library for a cloud key-value storage service's REST API.
//!
//! The library covers the decision-making half of the client: building the
//! HTTP requests each operation needs (method, URL, headers, JSON body) and
//! interpreting the JSON envelopes the service answers with. The transport
//! itself (sending a request, reading a response) is left to the embedding
//! caller, which hands each response back as a status code and a parsed
//! JSON document.

pub mod client;
pub mod envelope;
pub mod error;
pub mod json;
pub mod laws;
pub mod request;

pub use client::HttpMethod;
pub use client::HttpPlan;
pub use client::KeyListState;
pub use client::KvClient;
pub use client::KvNamespaceClient;
pub use envelope::KeysPage;
pub use envelope::Namespace;
pub use error::KvError;
pub use json::JsonValue;
pub use json::JsonView;
pub use request::KvRequest;
