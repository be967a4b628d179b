//! The dnstap record as it goes on the wire.
//!
//! A record is a protobuf message `Dnstap` that wraps one `Message`, the
//! description of a DNS query or response. The types here hold the fields of
//! the two messages as plain values, and `write_to_bytes` lays them out in
//! the order of their field numbers. The encoding of each single field is the
//! work of the `protobuf` crate.
use protobuf::CodedOutputStream;
use vstd::prelude::*;

verus! {

/// The largest field number that protobuf allows.
pub const FIELD_NUMBER_MAX: u32 = 0x1fff_ffff;

/// What kind of DNS message a record describes, and where it was seen.
#[allow(non_camel_case_types)]
#[derive(Clone, Copy, Debug, PartialEq, Eq, Hash, Structural)]
pub enum MessageType {
    AUTH_QUERY,
    AUTH_RESPONSE,
    RESOLVER_QUERY,
    RESOLVER_RESPONSE,
    CLIENT_QUERY,
    CLIENT_RESPONSE,
    FORWARDER_QUERY,
    FORWARDER_RESPONSE,
    STUB_QUERY,
    STUB_RESPONSE,
    TOOL_QUERY,
    TOOL_RESPONSE,
}

/// The network protocol family of the socket.
#[allow(non_camel_case_types)]
#[derive(Clone, Copy, Debug, PartialEq, Eq, Hash, Structural)]
pub enum SocketFamily {
    INET,
    INET6,
}

/// The transport protocol of the socket.
#[allow(non_camel_case_types)]
#[derive(Clone, Copy, Debug, PartialEq, Eq, Hash, Structural)]
pub enum SocketProtocol {
    UDP,
    TCP,
}

impl MessageType {
    /// The number that stands for this type on the wire.
    pub open spec fn spec_value(self) -> i32 {
        match self {
            MessageType::AUTH_QUERY => 1,
            MessageType::AUTH_RESPONSE => 2,
            MessageType::RESOLVER_QUERY => 3,
            MessageType::RESOLVER_RESPONSE => 4,
            MessageType::CLIENT_QUERY => 5,
            MessageType::CLIENT_RESPONSE => 6,
            MessageType::FORWARDER_QUERY => 7,
            MessageType::FORWARDER_RESPONSE => 8,
            MessageType::STUB_QUERY => 9,
            MessageType::STUB_RESPONSE => 10,
            MessageType::TOOL_QUERY => 11,
            MessageType::TOOL_RESPONSE => 12,
        }
    }

    /// The number that stands for this type on the wire.
    pub fn value(self) -> (number: i32)
        ensures
            number == self.spec_value(),
    {
        match self {
            MessageType::AUTH_QUERY => 1,
            MessageType::AUTH_RESPONSE => 2,
            MessageType::RESOLVER_QUERY => 3,
            MessageType::RESOLVER_RESPONSE => 4,
            MessageType::CLIENT_QUERY => 5,
            MessageType::CLIENT_RESPONSE => 6,
            MessageType::FORWARDER_QUERY => 7,
            MessageType::FORWARDER_RESPONSE => 8,
            MessageType::STUB_QUERY => 9,
            MessageType::STUB_RESPONSE => 10,
            MessageType::TOOL_QUERY => 11,
            MessageType::TOOL_RESPONSE => 12,
        }
    }
}

impl SocketFamily {
    /// The number that stands for this family on the wire.
    pub open spec fn spec_value(self) -> i32 {
        match self {
            SocketFamily::INET => 1,
            SocketFamily::INET6 => 2,
        }
    }

    /// The number that stands for this family on the wire.
    pub fn value(self) -> (number: i32)
        ensures
            number == self.spec_value(),
    {
        match self {
            SocketFamily::INET => 1,
            SocketFamily::INET6 => 2,
        }
    }
}

impl SocketProtocol {
    /// The number that stands for this protocol on the wire.
    pub open spec fn spec_value(self) -> i32 {
        match self {
            SocketProtocol::UDP => 1,
            SocketProtocol::TCP => 2,
        }
    }

    /// The number that stands for this protocol on the wire.
    pub fn value(self) -> (number: i32)
        ensures
            number == self.spec_value(),
    {
        match self {
            SocketProtocol::UDP => 1,
            SocketProtocol::TCP => 2,
        }
    }
}

// The bytes of one `bytes` field, with its tag and its length, as
// `CodedOutputStream::write_bytes` writes them.
pub uninterp spec fn wire_bytes(field: u32, value: Seq<u8>) -> Seq<u8>;

// The bytes of one `uint32` field, as `CodedOutputStream::write_uint32`
// writes them.
pub uninterp spec fn wire_uint32(field: u32, value: u32) -> Seq<u8>;

// The bytes of one `uint64` field, as `CodedOutputStream::write_uint64`
// writes them.
pub uninterp spec fn wire_uint64(field: u32, value: u64) -> Seq<u8>;

// The bytes of one `fixed32` field, as `CodedOutputStream::write_fixed32`
// writes them.
pub uninterp spec fn wire_fixed32(field: u32, value: u32) -> Seq<u8>;

// The bytes of one enum field, as `CodedOutputStream::write_enum` writes
// them.
pub uninterp spec fn wire_enum(field: u32, value: i32) -> Seq<u8>;

/// Appends one `bytes` field to `out`.
///
/// Trusted: calls `protobuf::CodedOutputStream::write_bytes` on a stream over
/// `out`. The claim is that the call leaves what `out` held in place and
/// appends bytes that depend on the field number and the value alone. The
/// field number must be one that protobuf allows, else the call panics; on a
/// stream over a `Vec` the call has no other way to fail.
#[verifier::external_body]
fn put_bytes(out: &mut Vec<u8>, field: u32, value: &[u8])
    requires
        1 <= field <= FIELD_NUMBER_MAX,
    ensures
        final(out)@ == old(out)@ + wire_bytes(field, value@),
{
    let mut stream = CodedOutputStream::vec(out);
    stream.write_bytes(field, value).unwrap();
    stream.flush().unwrap();
}

/// Appends one `uint32` field to `out`.
///
/// Trusted: calls `protobuf::CodedOutputStream::write_uint32` on a stream
/// over `out`. The claim is that the call leaves what `out` held in place and
/// appends bytes that depend on the field number and the value alone. The
/// field number must be one that protobuf allows, else the call panics; on a
/// stream over a `Vec` the call has no other way to fail.
#[verifier::external_body]
fn put_uint32(out: &mut Vec<u8>, field: u32, value: u32)
    requires
        1 <= field <= FIELD_NUMBER_MAX,
    ensures
        final(out)@ == old(out)@ + wire_uint32(field, value),
{
    let mut stream = CodedOutputStream::vec(out);
    stream.write_uint32(field, value).unwrap();
    stream.flush().unwrap();
}

/// Appends one `uint64` field to `out`.
///
/// Trusted: calls `protobuf::CodedOutputStream::write_uint64` on a stream
/// over `out`. The claim is that the call leaves what `out` held in place and
/// appends bytes that depend on the field number and the value alone. The
/// field number must be one that protobuf allows, else the call panics; on a
/// stream over a `Vec` the call has no other way to fail.
#[verifier::external_body]
fn put_uint64(out: &mut Vec<u8>, field: u32, value: u64)
    requires
        1 <= field <= FIELD_NUMBER_MAX,
    ensures
        final(out)@ == old(out)@ + wire_uint64(field, value),
{
    let mut stream = CodedOutputStream::vec(out);
    stream.write_uint64(field, value).unwrap();
    stream.flush().unwrap();
}

/// Appends one `fixed32` field to `out`.
///
/// Trusted: calls `protobuf::CodedOutputStream::write_fixed32` on a stream
/// over `out`. The claim is that the call leaves what `out` held in place and
/// appends bytes that depend on the field number and the value alone. The
/// field number must be one that protobuf allows, else the call panics; on a
/// stream over a `Vec` the call has no other way to fail.
#[verifier::external_body]
fn put_fixed32(out: &mut Vec<u8>, field: u32, value: u32)
    requires
        1 <= field <= FIELD_NUMBER_MAX,
    ensures
        final(out)@ == old(out)@ + wire_fixed32(field, value),
{
    let mut stream = CodedOutputStream::vec(out);
    stream.write_fixed32(field, value).unwrap();
    stream.flush().unwrap();
}

/// Appends one enum field to `out`.
///
/// Trusted: calls `protobuf::CodedOutputStream::write_enum` on a stream over
/// `out`. The claim is that the call leaves what `out` held in place and
/// appends bytes that depend on the field number and the value alone. The
/// field number must be one that protobuf allows, else the call panics; on a
/// stream over a `Vec` the call has no other way to fail.
#[verifier::external_body]
fn put_enum(out: &mut Vec<u8>, field: u32, value: i32)
    requires
        1 <= field <= FIELD_NUMBER_MAX,
    ensures
        final(out)@ == old(out)@ + wire_enum(field, value),
{
    let mut stream = CodedOutputStream::vec(out);
    stream.write_enum(field, value).unwrap();
    stream.flush().unwrap();
}

/// The bytes of an optional `bytes` field: nothing where it is absent.
pub open spec fn wire_opt_bytes(field: u32, value: Option<Seq<u8>>) -> Seq<u8> {
    match value {
        Some(bytes) => wire_bytes(field, bytes),
        None => Seq::empty(),
    }
}

/// The bytes of an optional enum field: nothing where it is absent.
pub open spec fn wire_opt_enum(field: u32, value: Option<i32>) -> Seq<u8> {
    match value {
        Some(number) => wire_enum(field, number),
        None => Seq::empty(),
    }
}

/// Optional bytes as a plain value.
pub open spec fn opt_view(value: Option<Vec<u8>>) -> Option<Seq<u8>> {
    match value {
        Some(bytes) => Some(bytes@),
        None => None,
    }
}

/// The bytes of an optional `uint32` field: nothing where it is absent.
pub open spec fn wire_opt_uint32(field: u32, value: Option<u32>) -> Seq<u8> {
    match value {
        Some(number) => wire_uint32(field, number),
        None => Seq::empty(),
    }
}

/// The bytes of an optional `uint64` field: nothing where it is absent.
pub open spec fn wire_opt_uint64(field: u32, value: Option<u64>) -> Seq<u8> {
    match value {
        Some(number) => wire_uint64(field, number),
        None => Seq::empty(),
    }
}

/// The bytes of an optional `fixed32` field: nothing where it is absent.
pub open spec fn wire_opt_fixed32(field: u32, value: Option<u32>) -> Seq<u8> {
    match value {
        Some(number) => wire_fixed32(field, number),
        None => Seq::empty(),
    }
}

fn put_opt_bytes(out: &mut Vec<u8>, field: u32, value: &Option<Vec<u8>>)
    requires
        1 <= field <= FIELD_NUMBER_MAX,
    ensures
        final(out)@ == old(out)@ + wire_opt_bytes(field, opt_view(*value)),
{
    match value {
        Some(bytes) => put_bytes(out, field, bytes.as_slice()),
        None => {
            assert(out@ =~= old(out)@ + wire_opt_bytes(field, opt_view(*value)));
        },
    }
}

fn put_opt_enum(out: &mut Vec<u8>, field: u32, value: Option<i32>)
    requires
        1 <= field <= FIELD_NUMBER_MAX,
    ensures
        final(out)@ == old(out)@ + wire_opt_enum(field, value),
{
    match value {
        Some(number) => put_enum(out, field, number),
        None => {
            assert(out@ =~= old(out)@ + wire_opt_enum(field, value));
        },
    }
}

fn put_opt_uint32(out: &mut Vec<u8>, field: u32, value: Option<u32>)
    requires
        1 <= field <= FIELD_NUMBER_MAX,
    ensures
        final(out)@ == old(out)@ + wire_opt_uint32(field, value),
{
    match value {
        Some(number) => put_uint32(out, field, number),
        None => {
            assert(out@ =~= old(out)@ + wire_opt_uint32(field, value));
        },
    }
}

fn put_opt_uint64(out: &mut Vec<u8>, field: u32, value: Option<u64>)
    requires
        1 <= field <= FIELD_NUMBER_MAX,
    ensures
        final(out)@ == old(out)@ + wire_opt_uint64(field, value),
{
    match value {
        Some(number) => put_uint64(out, field, number),
        None => {
            assert(out@ =~= old(out)@ + wire_opt_uint64(field, value));
        },
    }
}

fn put_opt_fixed32(out: &mut Vec<u8>, field: u32, value: Option<u32>)
    requires
        1 <= field <= FIELD_NUMBER_MAX,
    ensures
        final(out)@ == old(out)@ + wire_opt_fixed32(field, value),
{
    match value {
        Some(number) => put_fixed32(out, field, number),
        None => {
            assert(out@ =~= old(out)@ + wire_opt_fixed32(field, value));
        },
    }
}

/// The description of one DNS query or response. Every field but the type
/// is optional.
pub struct Message {
    /// Field 1: the kind of message.
    pub field_type: MessageType,
    /// Field 2.
    pub socket_family: Option<SocketFamily>,
    /// Field 3.
    pub socket_protocol: Option<SocketProtocol>,
    /// Field 4: the address of the initiator, 4 or 16 bytes.
    pub query_address: Option<Vec<u8>>,
    /// Field 5: the address of the responder, 4 or 16 bytes.
    pub response_address: Option<Vec<u8>>,
    /// Field 6.
    pub query_port: Option<u32>,
    /// Field 7.
    pub response_port: Option<u32>,
    /// Field 8: when the query was seen, seconds since the epoch.
    pub query_time_sec: Option<u64>,
    /// Field 9: the nanoseconds that go with field 8.
    pub query_time_nsec: Option<u32>,
    /// Field 10: the query in DNS wire format.
    pub query_message: Option<Vec<u8>>,
    /// Field 12: when the response was seen, seconds since the epoch.
    pub response_time_sec: Option<u64>,
    /// Field 13: the nanoseconds that go with field 12.
    pub response_time_nsec: Option<u32>,
    /// Field 14: the response in DNS wire format.
    pub response_message: Option<Vec<u8>>,
}

/// The outer message of a record.
pub struct Dnstap {
    /// Field 1: who sent the record.
    pub identity: Option<Vec<u8>>,
    /// Field 2: the version of the sender.
    pub version: Option<Vec<u8>>,
    /// Field 14: the DNS message that the record describes.
    pub message: Option<Message>,
}

/// The number that says, in field 15 of `Dnstap`, that the record holds a
/// `Message`.
pub const DNSTAP_TYPE_MESSAGE: i32 = 1;

/// The mathematical value of a [`Message`].
pub struct MessageView {
    pub field_type: MessageType,
    pub socket_family: Option<SocketFamily>,
    pub socket_protocol: Option<SocketProtocol>,
    pub query_address: Option<Seq<u8>>,
    pub response_address: Option<Seq<u8>>,
    pub query_port: Option<u32>,
    pub response_port: Option<u32>,
    pub query_time_sec: Option<u64>,
    pub query_time_nsec: Option<u32>,
    pub query_message: Option<Seq<u8>>,
    pub response_time_sec: Option<u64>,
    pub response_time_nsec: Option<u32>,
    pub response_message: Option<Seq<u8>>,
}

/// The mathematical value of a [`Dnstap`].
pub struct DnstapView {
    pub identity: Option<Seq<u8>>,
    pub version: Option<Seq<u8>>,
    pub message: Option<MessageView>,
}

impl View for Message {
    type V = MessageView;

    open spec fn view(&self) -> MessageView {
        MessageView {
            field_type: self.field_type,
            socket_family: self.socket_family,
            socket_protocol: self.socket_protocol,
            query_address: opt_view(self.query_address),
            response_address: opt_view(self.response_address),
            query_port: self.query_port,
            response_port: self.response_port,
            query_time_sec: self.query_time_sec,
            query_time_nsec: self.query_time_nsec,
            query_message: opt_view(self.query_message),
            response_time_sec: self.response_time_sec,
            response_time_nsec: self.response_time_nsec,
            response_message: opt_view(self.response_message),
        }
    }
}

impl View for Dnstap {
    type V = DnstapView;

    open spec fn view(&self) -> DnstapView {
        DnstapView {
            identity: opt_view(self.identity),
            version: opt_view(self.version),
            message: match self.message {
                Some(message) => Some(message@),
                None => None,
            },
        }
    }
}

impl MessageView {
    /// The message on the wire: the fields that are present, in the order
    /// of their numbers.
    pub open spec fn spec_bytes(self) -> Seq<u8> {
        wire_enum(1, self.field_type.spec_value()) + wire_opt_enum(
            2,
            match self.socket_family {
                Some(family) => Some(family.spec_value()),
                None => None,
            },
        ) + wire_opt_enum(
            3,
            match self.socket_protocol {
                Some(protocol) => Some(protocol.spec_value()),
                None => None,
            },
        ) + wire_opt_bytes(4, self.query_address) + wire_opt_bytes(5, self.response_address)
            + wire_opt_uint32(6, self.query_port) + wire_opt_uint32(7, self.response_port)
            + wire_opt_uint64(8, self.query_time_sec) + wire_opt_fixed32(
            9,
            self.query_time_nsec,
        ) + wire_opt_bytes(10, self.query_message) + wire_opt_uint64(12, self.response_time_sec)
            + wire_opt_fixed32(13, self.response_time_nsec) + wire_opt_bytes(
            14,
            self.response_message,
        )
    }
}

impl DnstapView {
    /// The record on the wire: identity and version where present, the
    /// message where present as one length-delimited field, and the type of
    /// the record, which is always `MESSAGE`.
    pub open spec fn spec_bytes(self) -> Seq<u8> {
        wire_opt_bytes(1, self.identity) + wire_opt_bytes(2, self.version) + wire_opt_bytes(
            14,
            match self.message {
                Some(message) => Some(message.spec_bytes()),
                None => None,
            },
        ) + wire_enum(15, DNSTAP_TYPE_MESSAGE)
    }
}

impl Message {
    /// A message of the given type with every optional field absent.
    pub fn new(field_type: MessageType) -> (message: Message)
        ensures
            message == (Message {
                field_type,
                socket_family: None,
                socket_protocol: None,
                query_address: None,
                response_address: None,
                query_port: None,
                response_port: None,
                query_time_sec: None,
                query_time_nsec: None,
                query_message: None,
                response_time_sec: None,
                response_time_nsec: None,
                response_message: None,
            }),
    {
        Message {
            field_type,
            socket_family: None,
            socket_protocol: None,
            query_address: None,
            response_address: None,
            query_port: None,
            response_port: None,
            query_time_sec: None,
            query_time_nsec: None,
            query_message: None,
            response_time_sec: None,
            response_time_nsec: None,
            response_message: None,
        }
    }

    /// Serialises the message.
    pub fn write_to_bytes(&self) -> (out: Vec<u8>)
        ensures
            out@ == self@.spec_bytes(),
    {
        let mut out: Vec<u8> = Vec::new();
        put_enum(&mut out, 1, self.field_type.value());
        assert(out@ =~= wire_enum(1, self.field_type.spec_value()));
        let family = match self.socket_family {
            Some(family) => Some(family.value()),
            None => None,
        };
        put_opt_enum(&mut out, 2, family);
        let protocol = match self.socket_protocol {
            Some(protocol) => Some(protocol.value()),
            None => None,
        };
        put_opt_enum(&mut out, 3, protocol);
        put_opt_bytes(&mut out, 4, &self.query_address);
        put_opt_bytes(&mut out, 5, &self.response_address);
        put_opt_uint32(&mut out, 6, self.query_port);
        put_opt_uint32(&mut out, 7, self.response_port);
        put_opt_uint64(&mut out, 8, self.query_time_sec);
        put_opt_fixed32(&mut out, 9, self.query_time_nsec);
        put_opt_bytes(&mut out, 10, &self.query_message);
        put_opt_uint64(&mut out, 12, self.response_time_sec);
        put_opt_fixed32(&mut out, 13, self.response_time_nsec);
        put_opt_bytes(&mut out, 14, &self.response_message);
        out
    }
}

impl Dnstap {
    /// Serialises the record. The result is the payload of one data frame.
    pub fn write_to_bytes(&self) -> (out: Vec<u8>)
        ensures
            out@ == self@.spec_bytes(),
    {
        let mut out: Vec<u8> = Vec::new();
        put_opt_bytes(&mut out, 1, &self.identity);
        assert(out@ =~= wire_opt_bytes(1, opt_view(self.identity)));
        put_opt_bytes(&mut out, 2, &self.version);
        let inner = match &self.message {
            Some(message) => Some(message.write_to_bytes()),
            None => None,
        };
        put_opt_bytes(&mut out, 14, &inner);
        put_enum(&mut out, 15, DNSTAP_TYPE_MESSAGE);
        out
    }
}

} // verus!
