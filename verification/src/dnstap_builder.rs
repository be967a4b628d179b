//! The configuration of a writer.
use crate::context::RETRY_DELAY_SECS;
use crate::dnstap_writer::DNSTapPendingWriter;
use vstd::prelude::*;

verus! {

/// The number of records that the queue holds unless told otherwise.
pub const DEFAULT_BACKLOG: usize = 4096;

/// Builds a `DNSTapPendingWriter` object, to eventually start a
/// `DNSTapWriter` service.
#[derive(Clone, Hash)]
pub struct DNSTapBuilder {
    /// Maximum number of messages to keep in queue.
    pub backlog: usize,
    /// Path to the UNIX socket to send dnstap data to.
    pub unix_socket_path: Option<String>,
    /// Seconds to wait between losing the collector and trying again.
    pub retry_delay_secs: u64,
}

impl DNSTapBuilder {
    /// Returns a `DNSTapBuilder` boilerplate: the default backlog, the
    /// default retry delay, and no socket path yet.
    pub fn default() -> (builder: DNSTapBuilder)
        ensures
            builder.backlog == DEFAULT_BACKLOG,
            builder.unix_socket_path is None,
            builder.retry_delay_secs == RETRY_DELAY_SECS,
    {
        DNSTapBuilder {
            backlog: DEFAULT_BACKLOG,
            unix_socket_path: None,
            retry_delay_secs: RETRY_DELAY_SECS,
        }
    }

    /// Maximum number of messages to keep in queue.
    pub fn backlog(self, backlog: usize) -> (builder: DNSTapBuilder)
        ensures
            builder.backlog == backlog,
            builder.unix_socket_path == self.unix_socket_path,
            builder.retry_delay_secs == self.retry_delay_secs,
    {
        DNSTapBuilder {
            backlog,
            unix_socket_path: self.unix_socket_path,
            retry_delay_secs: self.retry_delay_secs,
        }
    }

    /// Path to the UNIX socket to send dnstap data to.
    pub fn unix_socket_path(self, path: &str) -> (builder: DNSTapBuilder)
        ensures
            builder.backlog == self.backlog,
            builder.unix_socket_path is Some,
            builder.unix_socket_path->Some_0@ == path@,
            builder.retry_delay_secs == self.retry_delay_secs,
    {
        DNSTapBuilder {
            backlog: self.backlog,
            unix_socket_path: Some(path.to_owned()),
            retry_delay_secs: self.retry_delay_secs,
        }
    }

    /// Seconds to wait between losing the collector and trying again.
    pub fn retry_delay_secs(self, secs: u64) -> (builder: DNSTapBuilder)
        ensures
            builder.backlog == self.backlog,
            builder.unix_socket_path == self.unix_socket_path,
            builder.retry_delay_secs == secs,
    {
        DNSTapBuilder {
            backlog: self.backlog,
            unix_socket_path: self.unix_socket_path,
            retry_delay_secs: secs,
        }
    }

    /// Creates a `DNSTapPendingWriter` object: the queue exists from this
    /// point on and takes records. Fails if and only if no socket path was
    /// given.
    pub fn listen(self) -> (pending: Result<DNSTapPendingWriter, &'static str>)
        ensures
            pending is Ok <==> self.unix_socket_path is Some,
            pending is Ok ==> pending->Ok_0@ == DNSTapPendingWriter::spec_listen(self),
    {
        DNSTapPendingWriter::listen(self)
    }
}

} // verus!
