//! The sender side of the dnstap protocol, written as a verified core.
//!
//! dnstap is a structured binary log format for DNS software. A producer
//! hands records to a bounded queue; a reactor owns one connection to a
//! collector on a local socket and delivers the records as Frame Streams
//! frames, reconnecting after a fixed delay whenever the collector goes away.
//!
//! Nothing in this crate touches a socket, a timer or a thread. The reactor's
//! decisions are functions from a state and an event to the next state and an
//! action; whoever drives them performs the action and reports what happened.

pub mod context;
pub mod dns_message;
pub mod dnstap_builder;
pub mod dnstap_pb;
pub mod dnstap_writer;
pub mod frame;
pub mod queue;
pub mod theorems;

pub use crate::context::{Action, Connection, Context, Event, CONTENT_TYPE, RETRY_DELAY_SECS};
pub use crate::dns_message::{
    AuthQuery, AuthResponse, ClientQuery, ClientResponse, DNSMessage, IpAddress, ResolverQuery,
    ResolverResponse, Timestamp,
};
pub use crate::dnstap_builder::{DNSTapBuilder, DEFAULT_BACKLOG};
pub use crate::dnstap_pb::{Dnstap, Message, MessageType, SocketFamily, SocketProtocol};
pub use crate::dnstap_writer::{DNSTapPendingWriter, DNSTapWriter};
pub use crate::frame::{data_frame, decode, start_frame, stop_frame, Session};
pub use crate::queue::{BoundedQueue, QueueFull};
