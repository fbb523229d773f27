//! A transport-agnostic JSON-RPC 2.0 engine.
//!
//! The crate classifies raw JSON payloads into protocol messages, dispatches
//! requests to registered method handlers and produces the reply payloads,
//! for single messages as well as for batches.
//!
//! * [`json`] and [`codec`]: the untyped JSON value, and its text.
//! * [`types`], [`message`] and [`wire`]: the messages, their classification
//!   and their text on the wire.
//! * [`methods`] and [`jsonrpc`]: the registry of methods and the engine
//!   that answers a message with it.
//! * [`server`], [`batch`], [`coordinator`] and [`lifecycle`]: the server
//!   with a pool of workers, seen as a state machine: the plan of a batch,
//!   the slots that put its responses back in order, and the shutdown of the
//!   loop.
//! * [`router`], [`http`] and [`transports`]: routing through a protocol of
//!   one's own, the reply of an HTTP endpoint, and the framing of lines.
//! * [`shutdown`] and [`cancellation`]: the shared signals.
//! * [`error`]: the failures of handlers and of the engine.

pub mod batch;
pub mod cancellation;
pub mod codec;
pub mod coordinator;
pub mod error;
pub mod http;
pub mod json;
pub mod jsonrpc;
pub mod lifecycle;
pub mod message;
pub mod methods;
pub mod router;
pub mod server;
pub mod shutdown;
pub mod transports;
pub mod types;
pub mod wire;

pub use cancellation::CancellationToken;
pub use coordinator::Coordinator;
pub use error::Error;
pub use json::Json;
pub use jsonrpc::JsonRpc;
pub use lifecycle::Lifecycle;
pub use message::Message;
pub use methods::{HandlerFn, Methods};
pub use router::Router;
pub use server::Server;
pub use shutdown::ShutdownSignal;
pub use types::{Notification, Request, RequestId, Response};
