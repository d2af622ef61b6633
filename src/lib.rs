//! Hightide: handlers of the tide web framework may return status codes, text, bytes,
//! JSON or form payloads, pairs of a status and a body, fallible results, and this
//! library turns each of them into one outbound response.

pub mod status;
pub mod reply;
pub mod builder;
pub mod responder;
pub mod adapter;
pub mod laws;

pub use status::{is_registered_status, Status};
pub use reply::{Body, Content, Error, Mime, Reply};
pub use builder::Response;
pub use responder::{Form, Json, Responder};
pub use adapter::{wrap, High};
