//! DNS messages as a producer describes them, and how they become records.
use crate::dnstap_pb::{
    opt_view, Dnstap, DnstapView, Message, MessageType, MessageView, SocketFamily, SocketProtocol,
};
use vstd::prelude::*;
use vstd::std_specs::convert::FromSpecImpl;

verus! {

/// An IP address: the four bytes of an IPv4 address or the sixteen bytes of
/// an IPv6 address, in network order.
#[derive(Clone, Copy, Debug, Hash)]
pub enum IpAddress {
    V4([u8; 4]),
    V6([u8; 16]),
}

impl IpAddress {
    /// The bytes of the address, in network order.
    pub open spec fn spec_octets(self) -> Seq<u8> {
        match self {
            IpAddress::V4(octets) => octets@,
            IpAddress::V6(octets) => octets@,
        }
    }

    /// The protocol family that the address belongs to.
    pub open spec fn spec_family(self) -> SocketFamily {
        match self {
            IpAddress::V4(_) => SocketFamily::INET,
            IpAddress::V6(_) => SocketFamily::INET6,
        }
    }

    /// The bytes of the address, in network order.
    pub fn octets(&self) -> (bytes: Vec<u8>)
        ensures
            bytes@ == self.spec_octets(),
    {
        let mut bytes: Vec<u8> = Vec::new();
        match self {
            IpAddress::V4(octets) => {
                let mut i: usize = 0;
                while i < 4
                    invariant
                        i <= 4,
                        bytes@ == octets@.take(i as int),
                    decreases 4 - i,
                {
                    bytes.push(octets[i]);
                    i = i + 1;
                    assert(bytes@ =~= octets@.take(i as int));
                }
                assert(octets@.take(4) =~= octets@);
            },
            IpAddress::V6(octets) => {
                let mut i: usize = 0;
                while i < 16
                    invariant
                        i <= 16,
                        bytes@ == octets@.take(i as int),
                    decreases 16 - i,
                {
                    bytes.push(octets[i]);
                    i = i + 1;
                    assert(bytes@ =~= octets@.take(i as int));
                }
                assert(octets@.take(16) =~= octets@);
            },
        }
        bytes
    }

    /// The protocol family that the address belongs to.
    pub fn family(&self) -> (family: SocketFamily)
        ensures
            family == self.spec_family(),
    {
        match self {
            IpAddress::V4(_) => SocketFamily::INET,
            IpAddress::V6(_) => SocketFamily::INET6,
        }
    }
}

/// A point in time: seconds since the epoch, and the nanoseconds within the
/// second.
#[derive(Clone, Copy, Debug, Hash)]
pub struct Timestamp {
    pub secs: u64,
    pub nanos: u32,
}

/// A DNS message.
///
/// All properties are optional except the message type.
///
/// Although `socket_family` can be explicitly set, it is inferred from
/// `response_address` or `query_address` if one of these is present.
#[derive(Clone, Hash)]
pub struct DNSMessage {
    pub identity: Option<Vec<u8>>,
    pub version: Option<Vec<u8>>,
    pub message_type: MessageType,
    pub socket_family: Option<SocketFamily>,
    pub socket_protocol: Option<SocketProtocol>,
    pub query_address: Option<IpAddress>,
    pub query_port: Option<u16>,
    pub query_time: Option<Timestamp>,
    pub query_packet: Option<Vec<u8>>,
    pub response_address: Option<IpAddress>,
    pub response_port: Option<u16>,
    pub response_time: Option<Timestamp>,
    pub response_packet: Option<Vec<u8>>,
    pub bailiwick: Option<String>,
}

/// The socket family of a record: that of the response address if there is
/// one, else that of the query address if there is one, else the family that
/// was set by hand, if any.
pub open spec fn spec_socket_family(
    explicit: Option<SocketFamily>,
    query_address: Option<IpAddress>,
    response_address: Option<IpAddress>,
) -> Option<SocketFamily> {
    match response_address {
        Some(address) => Some(address.spec_family()),
        None => match query_address {
            Some(address) => Some(address.spec_family()),
            None => explicit,
        },
    }
}

impl DNSMessage {
    /// Returns a minimal DNS message: identity, version and type as given,
    /// everything else absent.
    pub fn new(
        identity: Option<Vec<u8>>,
        version: Option<Vec<u8>>,
        message_type: MessageType,
    ) -> (message: DNSMessage)
        ensures
            message == (DNSMessage {
                identity,
                version,
                message_type,
                socket_family: None,
                socket_protocol: None,
                query_address: None,
                query_port: None,
                query_time: None,
                query_packet: None,
                response_address: None,
                response_port: None,
                response_time: None,
                response_packet: None,
                bailiwick: None,
            }),
    {
        DNSMessage {
            identity,
            version,
            message_type,
            socket_family: None,
            socket_protocol: None,
            query_address: None,
            query_port: None,
            query_time: None,
            query_packet: None,
            response_address: None,
            response_port: None,
            response_time: None,
            response_packet: None,
            bailiwick: None,
        }
    }

    /// The record that the message becomes.
    ///
    /// Identity and version go to the record. The inner message gets the
    /// type, the socket protocol, the addresses as their bytes, the ports,
    /// the packets and the times, each in the field of its own side: what
    /// belongs to the query goes to the query fields, what belongs to the
    /// response to the response fields. The socket family is the one that
    /// the addresses imply, see [`spec_socket_family`]. The bailiwick has no
    /// field in the record and is dropped.
    pub open spec fn spec_into_protobuf(self) -> DnstapView {
        DnstapView {
            identity: opt_view(self.identity),
            version: opt_view(self.version),
            message: Some(
                MessageView {
                    field_type: self.message_type,
                    socket_family: spec_socket_family(
                        self.socket_family,
                        self.query_address,
                        self.response_address,
                    ),
                    socket_protocol: self.socket_protocol,
                    query_address: match self.query_address {
                        Some(address) => Some(address.spec_octets()),
                        None => None,
                    },
                    response_address: match self.response_address {
                        Some(address) => Some(address.spec_octets()),
                        None => None,
                    },
                    query_port: match self.query_port {
                        Some(port) => Some(port as u32),
                        None => None,
                    },
                    response_port: match self.response_port {
                        Some(port) => Some(port as u32),
                        None => None,
                    },
                    query_time_sec: match self.query_time {
                        Some(time) => Some(time.secs),
                        None => None,
                    },
                    query_time_nsec: match self.query_time {
                        Some(time) => Some(time.nanos),
                        None => None,
                    },
                    query_message: opt_view(self.query_packet),
                    response_time_sec: match self.response_time {
                        Some(time) => Some(time.secs),
                        None => None,
                    },
                    response_time_nsec: match self.response_time {
                        Some(time) => Some(time.nanos),
                        None => None,
                    },
                    response_message: opt_view(self.response_packet),
                },
            ),
        }
    }

    /// The serialised record of the message: the payload that a writer
    /// queues for it.
    pub open spec fn spec_payload(self) -> Seq<u8> {
        self.spec_into_protobuf().spec_bytes()
    }

    /// Turns the message into the record that goes on the wire.
    pub fn into_protobuf(self) -> (record: Dnstap)
        ensures
            record@ == self.spec_into_protobuf(),
    {
        let mut msg = Message::new(self.message_type);
        let mut socket_family = self.socket_family;
        match self.query_address {
            Some(address) => {
                msg.query_address = Some(address.octets());
                socket_family = Some(address.family());
            },
            None => {},
        }
        match self.response_address {
            Some(address) => {
                msg.response_address = Some(address.octets());
                socket_family = Some(address.family());
            },
            None => {},
        }
        msg.socket_family = socket_family;
        msg.socket_protocol = self.socket_protocol;
        match self.query_port {
            Some(port) => {
                msg.query_port = Some(port as u32);
            },
            None => {},
        }
        match self.response_port {
            Some(port) => {
                msg.response_port = Some(port as u32);
            },
            None => {},
        }
        msg.query_message = self.query_packet;
        msg.response_message = self.response_packet;
        match self.query_time {
            Some(time) => {
                msg.query_time_sec = Some(time.secs);
                msg.query_time_nsec = Some(time.nanos);
            },
            None => {},
        }
        match self.response_time {
            Some(time) => {
                msg.response_time_sec = Some(time.secs);
                msg.response_time_nsec = Some(time.nanos);
            },
            None => {},
        }
        Dnstap { identity: self.identity, version: self.version, message: Some(msg) }
    }
}

/// A query that an authoritative server received.
#[derive(Clone, Hash)]
pub struct AuthQuery {
    pub identity: Option<Vec<u8>>,
    pub version: Option<Vec<u8>>,
    pub socket_protocol: SocketProtocol,
    pub query_address: IpAddress,
    pub query_port: u16,
    pub query_time: Timestamp,
    pub query_packet: Vec<u8>,
}

impl From<AuthQuery> for DNSMessage {
    fn from(query: AuthQuery) -> (message: DNSMessage) {
        let mut message = DNSMessage::new(query.identity, query.version, MessageType::AUTH_QUERY);
        message.socket_protocol = Some(query.socket_protocol);
        message.query_address = Some(query.query_address);
        message.query_port = Some(query.query_port);
        message.query_time = Some(query.query_time);
        message.query_packet = Some(query.query_packet);
        message
    }
}

impl FromSpecImpl<AuthQuery> for DNSMessage {
    open spec fn obeys_from_spec() -> bool {
        true
    }

    open spec fn from_spec(query: AuthQuery) -> DNSMessage {
        DNSMessage {
            identity: query.identity,
            version: query.version,
            message_type: MessageType::AUTH_QUERY,
            socket_family: None,
            socket_protocol: Some(query.socket_protocol),
            query_address: Some(query.query_address),
            query_port: Some(query.query_port),
            query_time: Some(query.query_time),
            query_packet: Some(query.query_packet),
            response_address: None,
            response_port: None,
            response_time: None,
            response_packet: None,
            bailiwick: None,
        }
    }
}

/// A response that an authoritative server sent.
#[derive(Clone, Hash)]
pub struct AuthResponse {
    pub identity: Option<Vec<u8>>,
    pub version: Option<Vec<u8>>,
    pub message_type: MessageType,
    pub socket_protocol: SocketProtocol,
    pub query_address: IpAddress,
    pub query_port: u16,
    pub query_time: Timestamp,
    pub response_packet: Vec<u8>,
}

impl From<AuthResponse> for DNSMessage {
    fn from(response: AuthResponse) -> (message: DNSMessage) {
        let mut message = DNSMessage::new(
            response.identity,
            response.version,
            MessageType::AUTH_RESPONSE,
        );
        message.socket_protocol = Some(response.socket_protocol);
        message.query_address = Some(response.query_address);
        message.query_port = Some(response.query_port);
        message.query_time = Some(response.query_time);
        message.response_packet = Some(response.response_packet);
        message
    }
}

impl FromSpecImpl<AuthResponse> for DNSMessage {
    open spec fn obeys_from_spec() -> bool {
        true
    }

    open spec fn from_spec(response: AuthResponse) -> DNSMessage {
        DNSMessage {
            identity: response.identity,
            version: response.version,
            message_type: MessageType::AUTH_RESPONSE,
            socket_family: None,
            socket_protocol: Some(response.socket_protocol),
            query_address: Some(response.query_address),
            query_port: Some(response.query_port),
            query_time: Some(response.query_time),
            query_packet: None,
            response_address: None,
            response_port: None,
            response_time: None,
            response_packet: Some(response.response_packet),
            bailiwick: None,
        }
    }
}

/// A query that a resolver sent to an authoritative server.
#[derive(Clone, Hash)]
pub struct ResolverQuery {
    pub identity: Option<Vec<u8>>,
    pub version: Option<Vec<u8>>,
    pub socket_protocol: SocketProtocol,
    pub query_time: Timestamp,
    pub query_packet: Vec<u8>,
    pub response_address: IpAddress,
    pub response_port: u16,
    pub bailiwick: String,
}

impl From<ResolverQuery> for DNSMessage {
    fn from(query: ResolverQuery) -> (message: DNSMessage) {
        let mut message = DNSMessage::new(
            query.identity,
            query.version,
            MessageType::RESOLVER_QUERY,
        );
        message.socket_protocol = Some(query.socket_protocol);
        message.query_time = Some(query.query_time);
        message.query_packet = Some(query.query_packet);
        message.response_address = Some(query.response_address);
        message.response_port = Some(query.response_port);
        message.bailiwick = Some(query.bailiwick);
        message
    }
}

impl FromSpecImpl<ResolverQuery> for DNSMessage {
    open spec fn obeys_from_spec() -> bool {
        true
    }

    open spec fn from_spec(query: ResolverQuery) -> DNSMessage {
        DNSMessage {
            identity: query.identity,
            version: query.version,
            message_type: MessageType::RESOLVER_QUERY,
            socket_family: None,
            socket_protocol: Some(query.socket_protocol),
            query_address: None,
            query_port: None,
            query_time: Some(query.query_time),
            query_packet: Some(query.query_packet),
            response_address: Some(query.response_address),
            response_port: Some(query.response_port),
            response_time: None,
            response_packet: None,
            bailiwick: Some(query.bailiwick),
        }
    }
}

/// A response that a resolver received from an authoritative server.
#[derive(Clone, Hash)]
pub struct ResolverResponse {
    pub identity: Option<Vec<u8>>,
    pub version: Option<Vec<u8>>,
    pub socket_protocol: SocketProtocol,
    pub query_time: Timestamp,
    pub response_address: IpAddress,
    pub response_port: u16,
    pub response_packet: Vec<u8>,
    pub response_time: Timestamp,
    pub bailiwick: String,
}

impl From<ResolverResponse> for DNSMessage {
    fn from(response: ResolverResponse) -> (message: DNSMessage) {
        let mut message = DNSMessage::new(
            response.identity,
            response.version,
            MessageType::RESOLVER_RESPONSE,
        );
        message.socket_protocol = Some(response.socket_protocol);
        message.query_time = Some(response.query_time);
        message.response_address = Some(response.response_address);
        message.response_port = Some(response.response_port);
        message.response_packet = Some(response.response_packet);
        message.response_time = Some(response.response_time);
        message.bailiwick = Some(response.bailiwick);
        message
    }
}

impl FromSpecImpl<ResolverResponse> for DNSMessage {
    open spec fn obeys_from_spec() -> bool {
        true
    }

    open spec fn from_spec(response: ResolverResponse) -> DNSMessage {
        DNSMessage {
            identity: response.identity,
            version: response.version,
            message_type: MessageType::RESOLVER_RESPONSE,
            socket_family: None,
            socket_protocol: Some(response.socket_protocol),
            query_address: None,
            query_port: None,
            query_time: Some(response.query_time),
            query_packet: None,
            response_address: Some(response.response_address),
            response_port: Some(response.response_port),
            response_time: Some(response.response_time),
            response_packet: Some(response.response_packet),
            bailiwick: Some(response.bailiwick),
        }
    }
}

/// A query that a client sent to a resolver.
#[derive(Clone, Hash)]
pub struct ClientQuery {
    pub identity: Option<Vec<u8>>,
    pub version: Option<Vec<u8>>,
    pub socket_family: SocketFamily,
    pub socket_protocol: SocketProtocol,
    pub query_time: Timestamp,
    pub query_packet: Vec<u8>,
}

impl From<ClientQuery> for DNSMessage {
    fn from(query: ClientQuery) -> (message: DNSMessage) {
        let mut message = DNSMessage::new(query.identity, query.version, MessageType::CLIENT_QUERY);
        message.socket_family = Some(query.socket_family);
        message.socket_protocol = Some(query.socket_protocol);
        message.query_time = Some(query.query_time);
        message.query_packet = Some(query.query_packet);
        message
    }
}

impl FromSpecImpl<ClientQuery> for DNSMessage {
    open spec fn obeys_from_spec() -> bool {
        true
    }

    open spec fn from_spec(query: ClientQuery) -> DNSMessage {
        DNSMessage {
            identity: query.identity,
            version: query.version,
            message_type: MessageType::CLIENT_QUERY,
            socket_family: Some(query.socket_family),
            socket_protocol: Some(query.socket_protocol),
            query_address: None,
            query_port: None,
            query_time: Some(query.query_time),
            query_packet: Some(query.query_packet),
            response_address: None,
            response_port: None,
            response_time: None,
            response_packet: None,
            bailiwick: None,
        }
    }
}

/// A response that a client received from a resolver.
#[derive(Clone, Hash)]
pub struct ClientResponse {
    pub identity: Option<Vec<u8>>,
    pub version: Option<Vec<u8>>,
    pub socket_family: SocketFamily,
    pub socket_protocol: SocketProtocol,
    pub response_time: Timestamp,
    pub response_packet: Vec<u8>,
}

impl From<ClientResponse> for DNSMessage {
    fn from(response: ClientResponse) -> (message: DNSMessage) {
        let mut message = DNSMessage::new(
            response.identity,
            response.version,
            MessageType::CLIENT_RESPONSE,
        );
        message.socket_family = Some(response.socket_family);
        message.socket_protocol = Some(response.socket_protocol);
        message.response_time = Some(response.response_time);
        message.response_packet = Some(response.response_packet);
        message
    }
}

impl FromSpecImpl<ClientResponse> for DNSMessage {
    open spec fn obeys_from_spec() -> bool {
        true
    }

    open spec fn from_spec(response: ClientResponse) -> DNSMessage {
        DNSMessage {
            identity: response.identity,
            version: response.version,
            message_type: MessageType::CLIENT_RESPONSE,
            socket_family: Some(response.socket_family),
            socket_protocol: Some(response.socket_protocol),
            query_address: None,
            query_port: None,
            query_time: None,
            query_packet: None,
            response_address: None,
            response_port: None,
            response_time: Some(response.response_time),
            response_packet: Some(response.response_packet),
            bailiwick: None,
        }
    }
}

} // verus!
