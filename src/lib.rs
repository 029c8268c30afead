//! A high level layer to issue REST and GraphQL calls against a long-lived endpoint.
//!
//! A [`Bridge`] owns the base URL. Requests are described by a [`RequestType`],
//! configured through the chainable [`Request`] builder, and turned into an
//! [`Outgoing`] call whose transport outcome is folded into a [`Response`] or a
//! [`BridgeError`].
pub mod bridge;
pub mod endpoint;
pub mod exchange;
pub mod outside;
pub mod request;

pub use bridge::Bridge;
pub use endpoint::Endpoint;
pub use exchange::{BridgeError, Outgoing, RequestKind, Response};
pub use request::{GraphQL, GraphQLBody, Method, Request, RequestType, Rest, RestBody};
