use dnstap::frame::{data_frame, decode, start_frame};
use dnstap::{
    Action, ClientQuery, DNSMessage, DNSTapBuilder, DNSTapPendingWriter, DNSTapWriter, Event,
    MessageType, SocketFamily, SocketProtocol, Timestamp, CONTENT_TYPE, DEFAULT_BACKLOG,
    RETRY_DELAY_SECS,
};

const WRITABLE: Event = Event::Socket { hup: false, error: false };

fn query(tag: u8) -> DNSMessage {
    ClientQuery {
        identity: Some(vec![tag]),
        version: None,
        socket_family: SocketFamily::INET,
        socket_protocol: SocketProtocol::UDP,
        query_time: Timestamp { secs: tag as u64, nanos: 0 },
        query_packet: vec![tag; 12],
    }
    .into()
}

fn payload(tag: u8) -> Vec<u8> {
    query(tag).into_protobuf().write_to_bytes()
}

fn send_all(writer: &mut DNSTapWriter, action: Action, wire: &mut Vec<u8>) -> Action {
    let mut action = action;
    while action == Action::Write {
        let all = writer.unsent().len();
        wire.extend_from_slice(writer.unsent());
        action = writer.handle(Event::Written(all));
    }
    action
}

#[test]
fn the_default_builder() {
    let builder = DNSTapBuilder::default();
    assert_eq!(builder.backlog, 4096);
    assert_eq!(builder.backlog, DEFAULT_BACKLOG);
    assert_eq!(builder.unix_socket_path, None);
    assert_eq!(builder.retry_delay_secs, 1);
    assert_eq!(builder.retry_delay_secs, RETRY_DELAY_SECS);
}

#[test]
fn the_builder_sets_one_option_at_a_time() {
    let builder = DNSTapBuilder::default().backlog(7);
    assert_eq!(builder.backlog, 7);
    assert_eq!(builder.unix_socket_path, None);
    assert_eq!(builder.retry_delay_secs, 1);
    let builder = builder.unix_socket_path("/tmp/dnstap.sock");
    assert_eq!(builder.backlog, 7);
    assert_eq!(builder.unix_socket_path, Some("/tmp/dnstap.sock".to_owned()));
    assert_eq!(builder.retry_delay_secs, 1);
    let builder = builder.retry_delay_secs(30);
    assert_eq!(builder.backlog, 7);
    assert_eq!(builder.unix_socket_path, Some("/tmp/dnstap.sock".to_owned()));
    assert_eq!(builder.retry_delay_secs, 30);
    let builder = builder.unix_socket_path("/other").backlog(0);
    assert_eq!(builder.backlog, 0);
    assert_eq!(builder.unix_socket_path, Some("/other".to_owned()));
}

#[test]
fn listen_fails_without_a_socket_path() {
    assert!(DNSTapBuilder::default().listen().is_err());
    assert!(DNSTapBuilder::default().backlog(3).retry_delay_secs(2).listen().is_err());
    assert!(DNSTapPendingWriter::listen(DNSTapBuilder::default()).is_err());
    assert!(DNSTapBuilder::default().unix_socket_path("/tmp/dnstap.sock").listen().is_ok());
    assert!(DNSTapBuilder::default().unix_socket_path("").listen().is_ok());
}

#[test]
fn starting_asks_for_the_first_dial() {
    let pending = DNSTapBuilder::default().unix_socket_path("/tmp/dnstap.sock").listen().unwrap();
    let (writer, action) = pending.start();
    assert_eq!(action, Action::Dial);
    assert_eq!(writer.unix_socket_path(), "/tmp/dnstap.sock");
    assert!(writer.unsent().is_empty());
    let pending = DNSTapBuilder::default().unix_socket_path("/a").listen().unwrap();
    let (_, action) = DNSTapWriter::start(pending);
    assert_eq!(action, Action::Dial);
}

#[test]
fn the_configured_delay_is_the_one_that_is_armed() {
    let pending =
        DNSTapBuilder::default().unix_socket_path("/a").retry_delay_secs(42).listen().unwrap();
    let (mut writer, _) = pending.start();
    assert_eq!(writer.handle(Event::ConnectFailed), Action::ArmRetry(42));
    assert_eq!(writer.handle(Event::TimerExpired), Action::Dial);
    assert_eq!(writer.handle(Event::ConnectFailed), Action::ArmRetry(42));
}

#[test]
fn records_sent_before_the_start_are_delivered_after_it() {
    let mut pending =
        DNSTapBuilder::default().backlog(2).unix_socket_path("/a").listen().unwrap();
    assert!(pending.send(query(1)).is_ok());
    assert!(pending.send(query(2)).is_ok());
    assert!(pending.send(query(3)).is_err());
    let (mut writer, action) = pending.start();
    assert_eq!(action, Action::Dial);
    assert_eq!(writer.handle(Event::Connected), Action::AwaitWritable);
    let mut wire = Vec::new();
    let first = writer.handle(WRITABLE);
    assert_eq!(send_all(&mut writer, first, &mut wire), Action::AwaitQueue);
    let mut expected = start_frame(CONTENT_TYPE);
    expected.extend(data_frame(&payload(1)));
    expected.extend(data_frame(&payload(2)));
    assert_eq!(wire, expected);
}

#[test]
fn the_backlog_bounds_what_waits_while_disconnected() {
    let pending = DNSTapBuilder::default().backlog(3).unix_socket_path("/a").listen().unwrap();
    let (mut writer, _) = pending.start();
    assert_eq!(writer.handle(Event::ConnectFailed), Action::ArmRetry(1));
    for tag in 0..3u8 {
        assert!(writer.send(query(tag)).is_ok());
    }
    for tag in 3..10u8 {
        assert!(writer.send(query(tag)).is_err());
        let refused = writer.enqueue(vec![tag]).unwrap_err();
        assert_eq!(refused.0, vec![tag]);
    }
}

#[test]
fn a_whole_service_from_first_dial_to_stop() {
    let pending = DNSTapBuilder::default().backlog(2).unix_socket_path("/a").listen().unwrap();
    let (mut writer, action) = pending.start();
    assert_eq!(action, Action::Dial);
    assert_eq!(writer.handle(Event::ConnectFailed), Action::ArmRetry(1));
    assert!(writer.send(query(b'A')).is_ok());
    assert!(writer.send(query(b'B')).is_ok());
    assert!(writer.send(query(b'C')).is_err());
    assert_eq!(writer.handle(Event::TimerExpired), Action::Dial);
    assert_eq!(writer.handle(Event::Connected), Action::AwaitWritable);
    let mut wire = Vec::new();
    let first = writer.handle(WRITABLE);
    assert_eq!(send_all(&mut writer, first, &mut wire), Action::AwaitQueue);
    assert!(writer.send(query(b'D')).is_ok());
    let next = writer.handle(Event::QueueReady);
    assert_eq!(send_all(&mut writer, next, &mut wire), Action::AwaitQueue);
    wire.extend(writer.finish());
    let found = decode(&wire).unwrap();
    assert_eq!(found.content_type, b"protobuf:dnstap.Dnstap");
    assert_eq!(found.payloads, vec![payload(b'A'), payload(b'B'), payload(b'D')]);
    assert!(found.finished);
}

#[test]
fn a_service_that_never_connected_stops_silently() {
    let pending = DNSTapBuilder::default().unix_socket_path("/a").listen().unwrap();
    let (mut writer, _) = pending.start();
    assert_eq!(writer.handle(Event::ConnectFailed), Action::ArmRetry(1));
    assert!(writer.send(DNSMessage::new(None, None, MessageType::TOOL_QUERY)).is_ok());
    assert!(writer.finish().is_empty());
}
