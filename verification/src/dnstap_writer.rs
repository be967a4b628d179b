//! The service: a context that is set up, started and stopped.
//!
//! A `DNSTapPendingWriter` is a service that has its queue but has not tried
//! to connect yet; a `DNSTapWriter` is one that runs. Both are plain values.
//! The thread that waits for events, the socket and the timer belong to
//! whoever drives the writer.
use crate::context::{Action, ConnectionView, Context, ContextView, Event};
use crate::dns_message::DNSMessage;
use crate::dnstap_builder::DNSTapBuilder;
use crate::queue::QueueFull;
use vstd::prelude::*;

verus! {

/// A writer that has been set up and not started. Its queue takes records
/// already; nothing is sent before `start`.
pub struct DNSTapPendingWriter {
    context: Context,
}

impl View for DNSTapPendingWriter {
    type V = ContextView;

    closed spec fn view(&self) -> ContextView {
        self.context@
    }
}

impl DNSTapPendingWriter {
    /// The state that `listen` sets up from a builder with a socket path:
    /// an empty queue with room for `backlog` records, no connection, no
    /// retry pending.
    pub open spec fn spec_listen(builder: DNSTapBuilder) -> ContextView
        recommends
            builder.unix_socket_path is Some,
    {
        ContextView {
            queue: Seq::empty(),
            capacity: builder.backlog as nat,
            connection: ConnectionView::Disconnected,
            retry_pending: false,
            retry_delay_secs: builder.retry_delay_secs,
            unix_socket_path: builder.unix_socket_path->Some_0@,
        }
    }

    /// Creates a `DNSTapPendingWriter` object. The queue is established at
    /// this point, and `send` can be used to queue records. Fails if and only
    /// if the builder holds no socket path.
    pub fn listen(builder: DNSTapBuilder) -> (pending: Result<DNSTapPendingWriter, &'static str>)
        ensures
            pending is Ok <==> builder.unix_socket_path is Some,
            pending is Ok ==> pending->Ok_0@ == Self::spec_listen(builder),
            pending is Ok ==> pending->Ok_0@.inv(),
    {
        match builder.unix_socket_path {
            Some(path) => Ok(
                DNSTapPendingWriter {
                    context: Context::new(builder.backlog, path, builder.retry_delay_secs),
                },
            ),
            None => Err("no path to the UNIX socket was given"),
        }
    }

    /// Serialises a DNS message and offers the record to the queue.
    pub fn send(&mut self, dns_message: DNSMessage) -> (result: Result<(), QueueFull>)
        ensures
            final(self)@ == old(self)@.enqueue(dns_message.spec_payload()).0,
            result is Ok <==> old(self)@.enqueue(dns_message.spec_payload()).1,
            result is Err ==> result->Err_0.0@ == dns_message.spec_payload(),
    {
        let payload = dns_message.into_protobuf().write_to_bytes();
        self.context.enqueue(payload)
    }

    /// Starts the service: the first connection attempt is due. Returns the
    /// running writer and the action to perform, which is `Dial`.
    pub fn start(self) -> (started: (DNSTapWriter, Action))
        ensures
            (started.0@, started.1) == self@.connect(),
    {
        DNSTapWriter::start(self)
    }
}

/// `DNSTapWriter` is the running service: it takes records, and it tells
/// the reactor what to do about each event, connecting and reconnecting to
/// the UNIX socket and pushing the queued records as Frame Streams frames.
pub struct DNSTapWriter {
    context: Context,
}

impl View for DNSTapWriter {
    type V = ContextView;

    closed spec fn view(&self) -> ContextView {
        self.context@
    }
}

impl DNSTapWriter {
    /// Starts the service: the first connection attempt is due. Returns the
    /// running writer and the action to perform, which is `Dial`.
    pub fn start(dnstap_pending_writer: DNSTapPendingWriter) -> (started: (DNSTapWriter, Action))
        ensures
            (started.0@, started.1) == dnstap_pending_writer@.connect(),
    {
        let mut context = dnstap_pending_writer.context;
        let action = context.connect();
        (DNSTapWriter { context }, action)
    }

    /// Serialises a DNS message and offers the record to the queue. A full
    /// queue refuses it at once.
    pub fn send(&mut self, dns_message: DNSMessage) -> (result: Result<(), QueueFull>)
        ensures
            final(self)@ == old(self)@.enqueue(dns_message.spec_payload()).0,
            result is Ok <==> old(self)@.enqueue(dns_message.spec_payload()).1,
            result is Err ==> result->Err_0.0@ == dns_message.spec_payload(),
    {
        let payload = dns_message.into_protobuf().write_to_bytes();
        self.context.enqueue(payload)
    }

    /// Offers a record that is serialised already to the queue. A full
    /// queue refuses it at once and hands it back.
    pub fn enqueue(&mut self, payload: Vec<u8>) -> (result: Result<(), QueueFull>)
        ensures
            final(self)@ == old(self)@.enqueue(payload@).0,
            result is Ok <==> old(self)@.enqueue(payload@).1,
            result is Err ==> result->Err_0.0 == payload,
    {
        self.context.enqueue(payload)
    }

    /// Where the collector listens.
    pub fn unix_socket_path(&self) -> (path: &str)
        ensures
            path@ == self@.unix_socket_path,
    {
        self.context.unix_socket_path()
    }

    /// One turn of the reactor: see [`Context::handle`].
    pub fn handle(&mut self, event: Event) -> (action: Action)
        ensures
            (final(self)@, action) == old(self)@.step(event),
    {
        self.context.handle(event)
    }

    /// The bytes that the socket has not accepted yet.
    pub fn unsent(&self) -> (bytes: &[u8])
        ensures
            bytes@ == self@.unsent(),
    {
        self.context.unsent()
    }

    /// Whether a connection is up.
    pub fn is_connected(&self) -> (up: bool)
        ensures
            up == (self@.connection is Connected),
    {
        self.context.is_connected()
    }

    /// Stops the service. Returns the last bytes for the socket: with a
    /// connection up, what was unsent and then the stop frame; without one,
    /// nothing. Afterwards the writer is disconnected and no retry is
    /// pending.
    pub fn finish(&mut self) -> (last: Vec<u8>)
        ensures
            (final(self)@, last@) == old(self)@.finish(),
    {
        self.context.finish()
    }
}

} // verus!
