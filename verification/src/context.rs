//! The connection state machine and the reactor's decisions.
//!
//! A [`Context`] owns the queue of waiting records and what is known of the
//! one connection to the collector. It never performs I/O. Each of its
//! handlers takes an event that the reactor observed, moves to the next state
//! and answers with the [`Action`] that the reactor has to perform next:
//!
//! * `Dial`: try to connect to the socket path, then report `connected` or
//!   `connect_failed`;
//! * `Write`: offer [`Context::unsent`] to the socket, then report `written`,
//!   `write_stalled` or `write_failed`;
//! * `AwaitWritable`, `AwaitQueue`: re-arm the one-shot notification for
//!   socket writability or queue readiness, and go back to waiting;
//! * `ArmRetry`: drop the socket if there is one, arm the retry timer, and go
//!   back to waiting;
//! * `Idle`: go back to waiting.
//!
//! Every handler is defined in every state, so a reactor that reports an
//! event late or twice cannot bring the state machine down.
use crate::frame::{
    data_frame, spec_data_frame, spec_start_frame, spec_stop_frame, start_frame, stop_frame,
};
use crate::queue::{spec_enqueue, BoundedQueue, QueueFull};
use vstd::prelude::*;
use vstd::string::StringSliceAdditionalSpecFns;

verus! {

/// The content type that every session declares when it opens.
pub const CONTENT_TYPE: &'static str = "protobuf:dnstap.Dnstap";

/// The default wait, in seconds, between losing the collector and the next
/// attempt to reach it.
pub const RETRY_DELAY_SECS: u64 = 1;

/// What the reactor observed.
#[derive(Clone, Copy, Debug, PartialEq, Eq, Structural)]
pub enum Event {
    /// The queue signalled that records wait in it.
    QueueReady,
    /// The socket signalled readiness; `hup` and `error` say whether the
    /// peer hung up or the socket failed.
    Socket { hup: bool, error: bool },
    /// The retry timer expired.
    TimerExpired,
    /// The connection attempt succeeded.
    Connected,
    /// The connection attempt failed.
    ConnectFailed,
    /// The socket accepted this many of the unsent bytes.
    Written(usize),
    /// The socket would have blocked, or the write was interrupted.
    WriteStalled,
    /// The write failed for good.
    WriteFailed,
}

/// What the reactor has to do next.
#[derive(Clone, Copy, Debug, PartialEq, Eq, Structural)]
pub enum Action {
    /// Nothing: go back to waiting.
    Idle,
    /// Try to connect to the socket path.
    Dial,
    /// Offer the unsent bytes to the socket.
    Write,
    /// Re-arm the notification for socket writability.
    AwaitWritable,
    /// Re-arm the notification for queue readiness.
    AwaitQueue,
    /// Drop the socket, if any, and arm the retry timer for this many seconds.
    ArmRetry(u64),
}

/// The connection to the collector: either nothing at all, or a session in
/// progress with the bytes that the socket has not accepted yet. The socket
/// itself is in the hands of the reactor, which keeps it exactly as long as
/// this value says `Connected`: the two are made and dropped together.
pub enum Connection {
    Disconnected,
    Connected { unsent: Vec<u8> },
}

/// The mathematical value of a [`Connection`].
pub enum ConnectionView {
    Disconnected,
    Connected { unsent: Seq<u8> },
}

impl View for Connection {
    type V = ConnectionView;

    open spec fn view(&self) -> ConnectionView {
        match self {
            Connection::Disconnected => ConnectionView::Disconnected,
            Connection::Connected { unsent } => ConnectionView::Connected { unsent: unsent@ },
        }
    }
}

/// The control frame that opens every session of this library.
pub open spec fn spec_handshake() -> Seq<u8> {
    spec_start_frame(CONTENT_TYPE.spec_bytes())
}

/// The mathematical value of a [`Context`], and the state machine itself:
/// each handler of `Context` computes the spec function of the same name.
pub struct ContextView {
    /// The records that wait, oldest first.
    pub queue: Seq<Seq<u8>>,
    /// The most records that may wait.
    pub capacity: nat,
    /// The connection.
    pub connection: ConnectionView,
    /// Whether the retry timer is armed and has not expired yet.
    pub retry_pending: bool,
    /// The wait between a failure and the next attempt.
    pub retry_delay_secs: u64,
    /// Where the collector listens.
    pub unix_socket_path: Seq<char>,
}

impl ContextView {
    /// What holds of every state that the handlers can reach: the queue is
    /// within its capacity, and no retry is pending while a connection is up.
    pub open spec fn inv(self) -> bool {
        &&& self.queue.len() <= self.capacity
        &&& self.connection is Connected ==> !self.retry_pending
    }

    /// The bytes that the socket has not accepted yet; none without a
    /// connection.
    pub open spec fn unsent(self) -> Seq<u8> {
        match self.connection {
            ConnectionView::Disconnected => Seq::empty(),
            ConnectionView::Connected { unsent } => unsent,
        }
    }

    /// A producer offers a record: it joins the queue unless the queue is
    /// full. The flag says whether it was accepted.
    pub open spec fn enqueue(self, payload: Seq<u8>) -> (ContextView, bool) {
        let offered = spec_enqueue(self.queue, self.capacity, payload);
        (ContextView { queue: offered.0, ..self }, offered.1)
    }

    /// The connection is lost: forget it and what it had not sent, and arm
    /// the retry timer unless it is armed already.
    pub open spec fn teardown(self) -> (ContextView, Action) {
        (
            ContextView {
                connection: ConnectionView::Disconnected,
                retry_pending: true,
                ..self
            },
            if self.retry_pending {
                Action::Idle
            } else {
                Action::ArmRetry(self.retry_delay_secs)
            },
        )
    }

    /// Decide what to send next. Unsent bytes go first; with none left, the
    /// oldest waiting record is framed; with none waiting, the reactor goes
    /// back to waiting for the queue.
    pub open spec fn pump(self) -> (ContextView, Action) {
        match self.connection {
            ConnectionView::Disconnected => (self, Action::Idle),
            ConnectionView::Connected { unsent } => {
                if unsent.len() > 0 {
                    (self, Action::Write)
                } else if self.queue.len() > 0 {
                    (
                        ContextView {
                            queue: self.queue.skip(1),
                            connection: ConnectionView::Connected {
                                unsent: spec_data_frame(self.queue[0]),
                            },
                            ..self
                        },
                        Action::Write,
                    )
                } else {
                    (self, Action::AwaitQueue)
                }
            },
        }
    }

    /// The retry timer expired, or the service starts: dial unless a
    /// connection is up.
    pub open spec fn connect(self) -> (ContextView, Action) {
        (
            ContextView { retry_pending: false, ..self },
            if self.connection is Connected {
                Action::Idle
            } else {
                Action::Dial
            },
        )
    }

    /// The attempt succeeded: a new session begins with the handshake as
    /// its only unsent bytes, and the reactor waits for writability.
    pub open spec fn connected(self) -> (ContextView, Action) {
        (
            ContextView {
                connection: ConnectionView::Connected { unsent: spec_handshake() },
                retry_pending: false,
                ..self
            },
            Action::AwaitWritable,
        )
    }

    /// The attempt failed: arm the retry timer, unless it is armed already
    /// or a connection is up after all.
    pub open spec fn connect_failed(self) -> (ContextView, Action) {
        if self.connection is Connected || self.retry_pending {
            (self, Action::Idle)
        } else {
            (ContextView { retry_pending: true, ..self }, Action::ArmRetry(self.retry_delay_secs))
        }
    }

    /// The queue signalled readiness.
    pub open spec fn message_cb(self) -> (ContextView, Action) {
        self.pump()
    }

    /// The socket signalled readiness: a hangup or an error loses the
    /// connection, anything else resumes sending.
    pub open spec fn write_cb(self, hup: bool, error: bool) -> (ContextView, Action) {
        if self.connection is Disconnected {
            (self, Action::Idle)
        } else if hup || error {
            self.teardown()
        } else {
            self.pump()
        }
    }

    /// The socket accepted `n` of the unsent bytes: they leave the front of
    /// the unsent bytes and sending goes on. A socket that accepts nothing of
    /// a non-empty offer can take no more: the connection is lost.
    pub open spec fn written(self, n: nat) -> (ContextView, Action) {
        match self.connection {
            ConnectionView::Disconnected => (self, Action::Idle),
            ConnectionView::Connected { unsent } => {
                let accepted = if n <= unsent.len() {
                    n
                } else {
                    unsent.len()
                };
                if accepted == 0 && unsent.len() > 0 {
                    self.teardown()
                } else {
                    ContextView {
                        connection: ConnectionView::Connected {
                            unsent: unsent.skip(accepted as int),
                        },
                        ..self
                    }.pump()
                }
            },
        }
    }

    /// The socket would have blocked: keep everything and wait for
    /// writability.
    pub open spec fn write_stalled(self) -> (ContextView, Action) {
        if self.connection is Connected {
            (self, Action::AwaitWritable)
        } else {
            (self, Action::Idle)
        }
    }

    /// The write failed for good: the connection is lost.
    pub open spec fn write_failed(self) -> (ContextView, Action) {
        if self.connection is Connected {
            self.teardown()
        } else {
            (self, Action::Idle)
        }
    }

    /// One turn of the reactor: the handler that `event` belongs to.
    pub open spec fn step(self, event: Event) -> (ContextView, Action) {
        match event {
            Event::QueueReady => self.message_cb(),
            Event::Socket { hup, error } => self.write_cb(hup, error),
            Event::TimerExpired => self.connect(),
            Event::Connected => self.connected(),
            Event::ConnectFailed => self.connect_failed(),
            Event::Written(n) => self.written(n as nat),
            Event::WriteStalled => self.write_stalled(),
            Event::WriteFailed => self.write_failed(),
        }
    }

    /// The service stops: a session in progress is closed by the stop frame
    /// after whatever was still unsent; without a connection there is
    /// nothing to say.
    pub open spec fn finish(self) -> (ContextView, Seq<u8>) {
        (
            ContextView {
                connection: ConnectionView::Disconnected,
                retry_pending: false,
                ..self
            },
            match self.connection {
                ConnectionView::Disconnected => Seq::empty(),
                ConnectionView::Connected { unsent } => unsent + spec_stop_frame(),
            },
        )
    }
}

/// The state of the reactor: the queue, the connection and the retry timer.
pub struct Context {
    queue: BoundedQueue,
    unix_socket_path: String,
    retry_delay_secs: u64,
    connection: Connection,
    retry_pending: bool,
}

impl View for Context {
    type V = ContextView;

    closed spec fn view(&self) -> ContextView {
        ContextView {
            queue: self.queue@,
            capacity: self.queue.spec_capacity(),
            connection: self.connection@,
            retry_pending: self.retry_pending,
            retry_delay_secs: self.retry_delay_secs,
            unix_socket_path: self.unix_socket_path@,
        }
    }
}

impl Context {
    /// A disconnected context with an empty queue of the given capacity.
    pub fn new(backlog: usize, unix_socket_path: String, retry_delay_secs: u64) -> (context:
        Context)
        ensures
            context@ == (ContextView {
                queue: Seq::empty(),
                capacity: backlog as nat,
                connection: ConnectionView::Disconnected,
                retry_pending: false,
                retry_delay_secs,
                unix_socket_path: unix_socket_path@,
            }),
            context@.inv(),
    {
        Context {
            queue: BoundedQueue::new(backlog),
            unix_socket_path,
            retry_delay_secs,
            connection: Connection::Disconnected,
            retry_pending: false,
        }
    }

    /// Where the collector listens.
    pub fn unix_socket_path(&self) -> (path: &str)
        ensures
            path@ == self@.unix_socket_path,
    {
        self.unix_socket_path.as_str()
    }

    /// The wait between a failure and the next attempt, in seconds.
    pub fn retry_delay_secs(&self) -> (secs: u64)
        ensures
            secs == self@.retry_delay_secs,
    {
        self.retry_delay_secs
    }

    /// Whether a connection is up.
    pub fn is_connected(&self) -> (up: bool)
        ensures
            up == (self@.connection is Connected),
    {
        match &self.connection {
            Connection::Disconnected => false,
            Connection::Connected { .. } => true,
        }
    }

    /// Whether the retry timer is armed and has not expired yet.
    pub fn retry_pending(&self) -> (pending: bool)
        ensures
            pending == self@.retry_pending,
    {
        self.retry_pending
    }

    /// The number of records that wait in the queue.
    pub fn queued(&self) -> (len: usize)
        ensures
            len == self@.queue.len(),
            len <= self@.capacity,
    {
        self.queue.len()
    }

    /// The bytes that the socket has not accepted yet, in the order in
    /// which it has to see them; empty without a connection.
    pub fn unsent(&self) -> (bytes: &[u8])
        ensures
            bytes@ == self@.unsent(),
    {
        match &self.connection {
            Connection::Disconnected => {
                let bytes: &[u8] = &[];
                assert(bytes@ =~= Seq::<u8>::empty());
                bytes
            },
            Connection::Connected { unsent } => unsent.as_slice(),
        }
    }

    /// A producer offers a record. It joins the queue unless the queue is
    /// full; then it comes back in the error and nothing changes.
    pub fn enqueue(&mut self, payload: Vec<u8>) -> (result: Result<(), QueueFull>)
        ensures
            final(self)@ == old(self)@.enqueue(payload@).0,
            result is Ok <==> old(self)@.enqueue(payload@).1,
            result is Err ==> result->Err_0.0 == payload,
    {
        self.queue.enqueue(payload)
    }

    /// The connection is lost.
    fn teardown(&mut self) -> (action: Action)
        ensures
            (final(self)@, action) == old(self)@.teardown(),
    {
        let action = if self.retry_pending {
            Action::Idle
        } else {
            Action::ArmRetry(self.retry_delay_secs)
        };
        self.connection = Connection::Disconnected;
        self.retry_pending = true;
        action
    }

    /// Decide what to send next.
    fn pump(&mut self) -> (action: Action)
        ensures
            (final(self)@, action) == old(self)@.pump(),
    {
        let mut connection = Connection::Disconnected;
        std::mem::swap(&mut self.connection, &mut connection);
        match connection {
            Connection::Disconnected => Action::Idle,
            Connection::Connected { unsent } => {
                if unsent.len() > 0 {
                    self.connection = Connection::Connected { unsent };
                    Action::Write
                } else {
                    match self.queue.try_dequeue() {
                        Some(payload) => {
                            let frame = data_frame(payload.as_slice());
                            self.connection = Connection::Connected { unsent: frame };
                            Action::Write
                        },
                        None => {
                            self.connection = Connection::Connected { unsent };
                            Action::AwaitQueue
                        },
                    }
                }
            },
        }
    }

    /// The retry timer expired, or the service starts. Answers `Dial`
    /// unless a connection is up; either way no retry is pending afterwards.
    pub fn connect(&mut self) -> (action: Action)
        ensures
            (final(self)@, action) == old(self)@.connect(),
    {
        self.retry_pending = false;
        if self.is_connected() {
            Action::Idle
        } else {
            Action::Dial
        }
    }

    /// The connection attempt succeeded. A new session begins: the
    /// handshake is the only unsent data, whatever an earlier connection had
    /// not sent is gone, and the answer is `AwaitWritable`.
    pub fn connected(&mut self) -> (action: Action)
        ensures
            (final(self)@, action) == old(self)@.connected(),
    {
        self.connection = Connection::Connected { unsent: start_frame(CONTENT_TYPE) };
        self.retry_pending = false;
        Action::AwaitWritable
    }

    /// The connection attempt failed. Answers `ArmRetry` with the configured
    /// delay, unless the timer is armed already or a connection is up.
    pub fn connect_failed(&mut self) -> (action: Action)
        ensures
            (final(self)@, action) == old(self)@.connect_failed(),
    {
        if self.is_connected() || self.retry_pending {
            Action::Idle
        } else {
            self.retry_pending = true;
            Action::ArmRetry(self.retry_delay_secs)
        }
    }

    /// The queue signalled readiness. With a connection up, sending
    /// resumes; without one, the records stay where they are.
    pub fn message_cb(&mut self) -> (action: Action)
        ensures
            (final(self)@, action) == old(self)@.message_cb(),
    {
        self.pump()
    }

    /// The socket signalled readiness. A hangup or an error loses the
    /// connection and arms the retry timer; anything else resumes sending.
    pub fn write_cb(&mut self, hup: bool, error: bool) -> (action: Action)
        ensures
            (final(self)@, action) == old(self)@.write_cb(hup, error),
    {
        if !self.is_connected() {
            Action::Idle
        } else if hup || error {
            self.teardown()
        } else {
            self.pump()
        }
    }

    /// The socket accepted `n` of the unsent bytes.
    pub fn written(&mut self, n: usize) -> (action: Action)
        ensures
            (final(self)@, action) == old(self)@.written(n as nat),
    {
        let mut connection = Connection::Disconnected;
        std::mem::swap(&mut self.connection, &mut connection);
        match connection {
            Connection::Disconnected => Action::Idle,
            Connection::Connected { unsent } => {
                let mut unsent = unsent;
                let accepted = if n <= unsent.len() {
                    n
                } else {
                    unsent.len()
                };
                if accepted == 0 && unsent.len() > 0 {
                    self.teardown()
                } else {
                    let rest = unsent.split_off(accepted);
                    assert(rest@ =~= old(self)@.unsent().skip(accepted as int));
                    self.connection = Connection::Connected { unsent: rest };
                    self.pump()
                }
            },
        }
    }

    /// The socket would have blocked, or the write was interrupted.
    /// Nothing is lost: the unsent bytes stay, and the answer is
    /// `AwaitWritable`.
    pub fn write_stalled(&mut self) -> (action: Action)
        ensures
            (final(self)@, action) == old(self)@.write_stalled(),
    {
        if self.is_connected() {
            Action::AwaitWritable
        } else {
            Action::Idle
        }
    }

    /// The write failed for good. The connection and its unsent bytes are
    /// gone, and the retry timer is armed.
    pub fn write_failed(&mut self) -> (action: Action)
        ensures
            (final(self)@, action) == old(self)@.write_failed(),
    {
        if self.is_connected() {
            self.teardown()
        } else {
            Action::Idle
        }
    }

    /// One turn of the reactor: dispatches `event` to its handler.
    pub fn handle(&mut self, event: Event) -> (action: Action)
        ensures
            (final(self)@, action) == old(self)@.step(event),
    {
        match event {
            Event::QueueReady => self.message_cb(),
            Event::Socket { hup, error } => self.write_cb(hup, error),
            Event::TimerExpired => self.connect(),
            Event::Connected => self.connected(),
            Event::ConnectFailed => self.connect_failed(),
            Event::Written(n) => self.written(n),
            Event::WriteStalled => self.write_stalled(),
            Event::WriteFailed => self.write_failed(),
        }
    }

    /// The service stops. Returns the last bytes for the socket: with a
    /// connection up, what was unsent and then the stop frame; without one,
    /// nothing. Afterwards the context is disconnected and no retry is
    /// pending.
    pub fn finish(&mut self) -> (last: Vec<u8>)
        ensures
            (final(self)@, last@) == old(self)@.finish(),
    {
        let mut connection = Connection::Disconnected;
        std::mem::swap(&mut self.connection, &mut connection);
        self.retry_pending = false;
        match connection {
            Connection::Disconnected => {
                let last: Vec<u8> = Vec::new();
                assert(last@ =~= old(self)@.finish().1);
                last
            },
            Connection::Connected { unsent } => {
                let mut last = unsent;
                let mut stop = stop_frame();
                last.append(&mut stop);
                last
            },
        }
    }
}

} // verus!
