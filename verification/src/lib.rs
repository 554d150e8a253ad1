//! The verified core of a client for the `graphql-transport-ws` protocol.

mod json;
pub mod client_actor;
pub mod client_cfg;
pub mod error;
pub mod execution_result;
pub mod graphql_error;
pub mod message;
pub mod request;
pub mod response;
pub mod session;
pub mod subscriber_attr;

pub use client_actor::DefaultClientActor;
pub use client_cfg::ClientConfig;
pub use error::ProtocolError;
pub use execution_result::ExecutionResult;
pub use graphql_error::{Error, GraphQLError, Source, SourceLocation, StringOrU64};
pub use message::{Message, MessageType, WsFrame};
pub use request::Request;
pub use response::{Response, ResponseError};
pub use session::{Action, CloseKind, Fault, Incoming, Phase, Session};
pub use subscriber_attr::{AttrLit, AttrMeta, NestedMeta, UrlAttrError};
